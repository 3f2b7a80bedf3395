[package]
name = "span_collect"
version = "0.1.0"
edition = "2021"
publish = false

[dependencies]
sentry-core = "*"
sentry-backtrace = "*"
strip-ansi-escapes = "*"
tracing = "*"
tracing-core = "*"
tracing-subscriber = "*"
