//! Trace and span identifiers in their canonical hex-string text form.
//!
//! A trace identifier is 128 bits written as exactly 32 hexadecimal digits;
//! a span identifier is 64 bits written as exactly 16. Malformed text never
//! raises an error: parsing yields `None` and callers degrade to a generated
//! identifier or an absent field.

use vstd::prelude::*;
use vstd::string::StrSliceExecFns;

verus! {

/// The value of one hexadecimal digit, `None` when the character is not one.
pub open spec fn spec_hex_digit(c: char) -> Option<u8> {
    match c {
        '0' => Some(0u8),
        '1' => Some(1u8),
        '2' => Some(2u8),
        '3' => Some(3u8),
        '4' => Some(4u8),
        '5' => Some(5u8),
        '6' => Some(6u8),
        '7' => Some(7u8),
        '8' => Some(8u8),
        '9' => Some(9u8),
        'a' => Some(10u8),
        'b' => Some(11u8),
        'c' => Some(12u8),
        'd' => Some(13u8),
        'e' => Some(14u8),
        'f' => Some(15u8),
        'A' => Some(10u8),
        'B' => Some(11u8),
        'C' => Some(12u8),
        'D' => Some(13u8),
        'E' => Some(14u8),
        'F' => Some(15u8),
        _ => None,
    }
}

/// Every character of `s` is a hexadecimal digit.
pub open spec fn spec_is_hex(s: Seq<char>) -> bool {
    forall|i: int| 0 <= i < s.len() ==> #[trigger] spec_hex_digit(s[i]) is Some
}

/// The number denoted by a sequence of hexadecimal digits, most significant
/// digit first. Non-digit characters count as zero.
pub open spec fn spec_hex_value(s: Seq<char>) -> nat
    decreases s.len(),
{
    if s.len() == 0 {
        0
    } else {
        16 * spec_hex_value(s.drop_last()) + (match spec_hex_digit(s.last()) {
            Some(d) => d as nat,
            None => 0,
        })
    }
}

/// Sixteen to the `n`th power.
pub open spec fn pow16(n: nat) -> nat
    decreases n,
{
    if n == 0 {
        1
    } else {
        16 * pow16((n - 1) as nat)
    }
}

pub proof fn lemma_pow16_pos(n: nat)
    ensures
        pow16(n) >= 1,
    decreases n,
{
    if n > 0 {
        lemma_pow16_pos((n - 1) as nat);
    }
}

pub proof fn lemma_pow16_add(a: nat, b: nat)
    ensures
        pow16(a + b) == pow16(a) * pow16(b),
    decreases a,
{
    if a > 0 {
        lemma_pow16_add((a - 1) as nat, b);
        let p = pow16((a - 1) as nat);
        assert(pow16(a) == 16 * p);
        assert(pow16(a + b) == 16 * pow16(((a - 1) + b) as nat));
        assert(pow16(((a - 1) + b) as nat) == p * pow16(b));
        assert(16 * (p * pow16(b)) == (16 * p) * pow16(b)) by (nonlinear_arith);
        assert((16 * p) * pow16(b) == pow16(a) * pow16(b)) by (nonlinear_arith)
            requires
                pow16(a) == 16 * p,
        ;
    } else {
        assert(a + b == b);
        assert(pow16(a) == 1);
        assert(pow16(a) * pow16(b) == pow16(b)) by (nonlinear_arith)
            requires
                pow16(a) == 1,
        ;
    }
}

pub proof fn lemma_pow16_le(a: nat, b: nat)
    requires
        a <= b,
    ensures
        pow16(a) <= pow16(b),
{
    lemma_pow16_add(a, (b - a) as nat);
    lemma_pow16_pos((b - a) as nat);
    assert(pow16(a) * 1 <= pow16(a) * pow16((b - a) as nat)) by (nonlinear_arith)
        requires
            pow16((b - a) as nat) >= 1,
    ;
}

pub proof fn lemma_pow16_values()
    ensures
        pow16(16) == 0x10000000000000000,
        pow16(32) == 0x100000000000000000000000000000000,
{
    assert(pow16(4) == 0x10000) by {
        reveal_with_fuel(pow16, 5);
    }
    lemma_pow16_add(4, 4);
    assert(pow16(8) == 0x100000000);
    lemma_pow16_add(8, 8);
    assert(pow16(16) == 0x10000000000000000);
    lemma_pow16_add(16, 16);
}

/// The value of `n` hexadecimal digits always fits in `4 * n` bits.
pub proof fn lemma_hex_value_bound(s: Seq<char>)
    ensures
        spec_hex_value(s) < pow16(s.len()),
    decreases s.len(),
{
    if s.len() > 0 {
        lemma_hex_value_bound(s.drop_last());
        let prefix = spec_hex_value(s.drop_last());
        assert(16 * prefix <= 16 * (pow16((s.len() - 1) as nat) - 1)) by (nonlinear_arith)
            requires
                prefix <= pow16((s.len() - 1) as nat) - 1,
        ;
    }
}

/// Parses text of exactly `width` hexadecimal digits; anything else is `None`.
pub open spec fn spec_parse_hex(s: Seq<char>, width: nat) -> Option<u128> {
    if s.len() == width && width <= 32 && spec_is_hex(s) {
        Some(spec_hex_value(s) as u128)
    } else {
        None
    }
}

/// What parsing a trace identifier yields: 32 hex digits or nothing.
pub open spec fn spec_parse_trace_id(s: Seq<char>) -> Option<u128> {
    spec_parse_hex(s, 32)
}

/// What parsing a span identifier yields: 16 hex digits or nothing.
pub open spec fn spec_parse_span_id(s: Seq<char>) -> Option<u64> {
    match spec_parse_hex(s, 16) {
        Some(v) => Some(v as u64),
        None => None,
    }
}

/// The value of one hexadecimal digit, `None` when the character is not one.
pub fn hex_digit(c: char) -> (r: Option<u8>)
    ensures
        r == spec_hex_digit(c),
{
    match c {
        '0' => Some(0u8),
        '1' => Some(1u8),
        '2' => Some(2u8),
        '3' => Some(3u8),
        '4' => Some(4u8),
        '5' => Some(5u8),
        '6' => Some(6u8),
        '7' => Some(7u8),
        '8' => Some(8u8),
        '9' => Some(9u8),
        'a' => Some(10u8),
        'b' => Some(11u8),
        'c' => Some(12u8),
        'd' => Some(13u8),
        'e' => Some(14u8),
        'f' => Some(15u8),
        'A' => Some(10u8),
        'B' => Some(11u8),
        'C' => Some(12u8),
        'D' => Some(13u8),
        'E' => Some(14u8),
        'F' => Some(15u8),
        _ => None,
    }
}

/// Parses a fixed-width hexadecimal number, most significant digit first.
pub fn parse_hex_id(s: &str, width: usize) -> (r: Option<u128>)
    requires
        1 <= width <= 32,
    ensures
        r == spec_parse_hex(s@, width as nat),
{
    let n = s.unicode_len();
    if n != width {
        return None;
    }
    let mut acc: u128 = 0;
    let mut i: usize = 0;
    while i < width
        invariant
            0 <= i <= width <= 32,
            s@.len() == width,
            spec_is_hex(s@.subrange(0, i as int)),
            acc == spec_hex_value(s@.subrange(0, i as int)),
            acc < pow16(i as nat),
        decreases width - i,
    {
        let c = s.get_char(i);
        match hex_digit(c) {
            None => {
                proof {
                    assert(spec_hex_digit(s@[i as int]) is None);
                }
                return None;
            },
            Some(d) => {
                proof {
                    lemma_pow16_le((i + 1) as nat, 32);
                    lemma_pow16_values();
                    assert(pow16((i + 1) as nat) == 16 * pow16(i as nat));
                    assert(16 * acc + d < pow16((i + 1) as nat)) by (nonlinear_arith)
                        requires
                            acc < pow16(i as nat),
                            d <= 15,
                            pow16((i + 1) as nat) == 16 * pow16(i as nat),
                    ;
                }
                let ghost prev = s@.subrange(0, i as int);
                acc = acc * 16 + (d as u128);
                proof {
                    let ext = s@.subrange(0, i + 1 as int);
                    assert(ext.drop_last() =~= prev);
                    assert(ext.last() == s@[i as int]);
                    assert(acc == spec_hex_value(ext));
                    assert forall|j: int| 0 <= j < ext.len() implies #[trigger] spec_hex_digit(
                        ext[j],
                    ) is Some by {
                        if j < i {
                            assert(spec_hex_digit(prev[j]) is Some);
                        }
                    }
                }
                i = i + 1;
            },
        }
    }
    proof {
        assert(s@.subrange(0, width as int) =~= s@);
    }
    Some(acc)
}

/// Parses the canonical 32-digit hex form of a 128-bit trace identifier.
pub fn parse_trace_id(s: &str) -> (r: Option<u128>)
    ensures
        r == spec_parse_trace_id(s@),
{
    parse_hex_id(s, 32)
}

/// Parses the canonical 16-digit hex form of a 64-bit span identifier.
pub fn parse_span_id(s: &str) -> (r: Option<u64>)
    ensures
        r == spec_parse_span_id(s@),
{
    match parse_hex_id(s, 16) {
        Some(v) => {
            proof {
                lemma_hex_value_bound(s@);
                lemma_pow16_values();
            }
            Some(v as u64)
        },
        None => None,
    }
}

} // verus!
