//! Field values and the ordered key-unique field map.

use vstd::prelude::*;
use vstd::string::StrSliceExecFns;

verus! {

/// A JSON-like value attached to a span or event field.
#[derive(Debug, PartialEq)]
pub enum JsonValue {
    Int(i64),
    Uint(u64),
    Bool(bool),
    Str(String),
}

/// The mathematical value of a `JsonValue`.
pub enum ValueV {
    Int(i64),
    Uint(u64),
    Bool(bool),
    Str(Seq<char>),
}

impl View for JsonValue {
    type V = ValueV;

    open spec fn view(&self) -> ValueV {
        match self {
            JsonValue::Int(v) => ValueV::Int(*v),
            JsonValue::Uint(v) => ValueV::Uint(*v),
            JsonValue::Bool(v) => ValueV::Bool(*v),
            JsonValue::Str(s) => ValueV::Str(s@),
        }
    }
}

/// An association sequence from field names to values.
pub type FieldSeq = Seq<(Seq<char>, ValueV)>;

/// Index of the first binding of `k`, or `-1` when there is none.
pub open spec fn fm_first_idx(m: FieldSeq, k: Seq<char>) -> int
    decreases m.len(),
{
    if m.len() == 0 {
        -1
    } else if m[0].0 == k {
        0
    } else {
        let r = fm_first_idx(m.drop_first(), k);
        if r < 0 {
            -1
        } else {
            r + 1
        }
    }
}

pub open spec fn fm_contains(m: FieldSeq, k: Seq<char>) -> bool {
    fm_first_idx(m, k) >= 0
}

/// The value bound to `k`, if any.
pub open spec fn fm_lookup(m: FieldSeq, k: Seq<char>) -> Option<ValueV> {
    if fm_contains(m, k) {
        Some(m[fm_first_idx(m, k)].1)
    } else {
        None
    }
}

/// Binding `k` to `v`: replaces the first binding of `k` in place, or appends
/// a new binding at the end.
pub open spec fn fm_insert(m: FieldSeq, k: Seq<char>, v: ValueV) -> FieldSeq {
    if fm_contains(m, k) {
        m.update(fm_first_idx(m, k), (k, v))
    } else {
        m.push((k, v))
    }
}

/// No two bindings share a key.
pub open spec fn fm_unique(m: FieldSeq) -> bool {
    forall|i: int, j: int| 0 <= i < j < m.len() ==> m[i].0 != m[j].0
}

/// What `fm_first_idx` finds is the first binding of `k`.
pub proof fn lemma_fm_first_idx(m: FieldSeq, k: Seq<char>)
    ensures
        fm_contains(m, k) ==> {
            let x = fm_first_idx(m, k);
            &&& 0 <= x < m.len()
            &&& m[x].0 == k
            &&& forall|j: int| 0 <= j < x ==> m[j].0 != k
        },
        !fm_contains(m, k) ==> forall|j: int| 0 <= j < m.len() ==> m[j].0 != k,
    decreases m.len(),
{
    if m.len() > 0 && m[0].0 != k {
        let t = m.drop_first();
        lemma_fm_first_idx(t, k);
        if fm_contains(t, k) {
            let x = fm_first_idx(t, k);
            assert(t[x] == m[x + 1]);
            assert forall|j: int| 0 <= j < x + 1 implies m[j].0 != k by {
                if j > 0 {
                    assert(t[j - 1] == m[j]);
                }
            }
        } else {
            assert forall|j: int| 0 <= j < m.len() implies m[j].0 != k by {
                if j > 0 {
                    assert(t[j - 1] == m[j]);
                }
            }
        }
    }
}

/// A position that holds `k` with no earlier binding of `k` is what
/// `fm_first_idx` finds.
pub proof fn lemma_fm_first_idx_is(m: FieldSeq, k: Seq<char>, i: int)
    requires
        0 <= i < m.len(),
        m[i].0 == k,
        forall|j: int| 0 <= j < i ==> m[j].0 != k,
    ensures
        fm_first_idx(m, k) == i,
    decreases m.len(),
{
    if i > 0 {
        lemma_fm_first_idx_is(m.drop_first(), k, i - 1);
    }
}

/// A key is bound exactly when some binding carries it.
pub proof fn lemma_fm_contains_iff(m: FieldSeq, k: Seq<char>)
    ensures
        fm_contains(m, k) <==> exists|i: int| 0 <= i < m.len() && #[trigger] m[i].0 == k,
{
    lemma_fm_first_idx(m, k);
    if fm_contains(m, k) {
        assert(m[fm_first_idx(m, k)].0 == k);
    }
}

/// Inserting under one key never makes another key appear.
pub proof fn lemma_fm_insert_keeps_absent(m: FieldSeq, k: Seq<char>, v: ValueV, other: Seq<char>)
    requires
        !fm_contains(m, other),
        k != other,
    ensures
        !fm_contains(fm_insert(m, k, v), other),
{
    lemma_fm_first_idx(m, k);
    lemma_fm_contains_iff(m, other);
    let m2 = fm_insert(m, k, v);
    assert forall|i: int| 0 <= i < m2.len() implies m2[i].0 != other by {
        if fm_contains(m, k) {
            if i != fm_first_idx(m, k) {
                assert(m2[i] == m[i]);
            }
        } else {
            if i < m.len() {
                assert(m2[i] == m[i]);
            }
        }
    }
    lemma_fm_contains_iff(m2, other);
}

/// Inserting never duplicates a key.
pub proof fn lemma_fm_insert_unique(m: FieldSeq, k: Seq<char>, v: ValueV)
    requires
        fm_unique(m),
    ensures
        fm_unique(fm_insert(m, k, v)),
{
    lemma_fm_first_idx(m, k);
}

/// An ordered mapping from field names to values; keys stay unique and keep
/// their first-insertion position.
#[derive(Debug)]
pub struct FieldMap {
    entries: Vec<(String, JsonValue)>,
}

impl View for FieldMap {
    type V = FieldSeq;

    closed spec fn view(&self) -> FieldSeq {
        self.entries@.map_values(|p: (String, JsonValue)| (p.0@, p.1@))
    }
}

impl FieldMap {
    pub fn new() -> (r: FieldMap)
        ensures
            r@ == Seq::<(Seq<char>, ValueV)>::empty(),
    {
        let r = FieldMap { entries: Vec::new() };
        proof {
            assert(r@ =~= Seq::<(Seq<char>, ValueV)>::empty());
        }
        r
    }

    pub fn len(&self) -> (r: usize)
        ensures
            r == self@.len(),
    {
        self.entries.len()
    }

    /// Binds `key` to `value`, replacing an existing binding in place.
    pub fn insert(&mut self, key: String, value: JsonValue)
        ensures
            final(self)@ == fm_insert(old(self)@, key@, value@),
    {
        let n = self.entries.len();
        let mut i: usize = 0;
        while i < n
            invariant
                0 <= i <= n,
                n == self.entries.len(),
                *self == *old(self),
                forall|j: int| 0 <= j < i ==> self@[j].0 != key@,
            decreases n - i,
        {
            let hit = self.entries[i].0 == key;
            if hit {
                proof {
                    lemma_fm_first_idx_is(self@, key@, i as int);
                }
                self.entries.remove(i);
                self.entries.insert(i, (key, value));
                proof {
                    assert(final(self)@ =~= fm_insert(old(self)@, key@, value@));
                }
                return ;
            }
            i = i + 1;
        }
        proof {
            lemma_fm_first_idx(self@, key@);
            if fm_contains(self@, key@) {
                assert(self@[fm_first_idx(self@, key@)].0 == key@);
            }
        }
        self.entries.push((key, value));
        proof {
            assert(final(self)@ =~= fm_insert(old(self)@, key@, value@));
        }
    }

    /// All bindings, in order.
    pub fn entries_list(&self) -> (r: &Vec<(String, JsonValue)>)
        ensures
            r@.map_values(|p: (String, JsonValue)| (p.0@, p.1@)) == self@,
    {
        &self.entries
    }

    /// The value bound to `key`, if any.
    pub fn get(&self, key: &str) -> (r: Option<&JsonValue>)
        ensures
            match r {
                Some(v) => fm_lookup(self@, key@) == Some(v@),
                None => fm_lookup(self@, key@) is None,
            },
    {
        let n = self.entries.len();
        let mut i: usize = 0;
        while i < n
            invariant
                0 <= i <= n,
                n == self.entries.len(),
                forall|j: int| 0 <= j < i ==> self@[j].0 != key@,
            decreases n - i,
        {
            if str_eq(self.entries[i].0.as_str(), key) {
                proof {
                    lemma_fm_first_idx_is(self@, key@, i as int);
                }
                return Some(&self.entries[i].1);
            }
            i = i + 1;
        }
        proof {
            lemma_fm_first_idx(self@, key@);
        }
        None
    }
}

/// A copy of an optional owned string.
pub fn clone_opt_string(o: &Option<String>) -> (r: Option<String>)
    ensures
        (match r {
            Some(s) => (match o {
                Some(t) => s@ == t@,
                None => false,
            }),
            None => o is None,
        }),
{
    match o {
        Some(s) => Some(s.clone()),
        None => None,
    }
}

/// Character-for-character equality of two text slices.
pub fn str_eq(a: &str, b: &str) -> (r: bool)
    ensures
        r == (a@ == b@),
{
    let la = a.unicode_len();
    let lb = b.unicode_len();
    if la != lb {
        return false;
    }
    let mut i: usize = 0;
    while i < la
        invariant
            0 <= i <= la,
            la == a@.len(),
            la == b@.len(),
            forall|j: int| 0 <= j < i ==> a@[j] == b@[j],
        decreases la - i,
    {
        if a.get_char(i) != b.get_char(i) {
            return false;
        }
        i = i + 1;
    }
    proof {
        assert(a@ =~= b@);
    }
    true
}

/// The digit character for `d`, for `d < 10`.
pub open spec fn spec_digit_char(d: nat) -> char {
    if d == 0 {
        '0'
    } else if d == 1 {
        '1'
    } else if d == 2 {
        '2'
    } else if d == 3 {
        '3'
    } else if d == 4 {
        '4'
    } else if d == 5 {
        '5'
    } else if d == 6 {
        '6'
    } else if d == 7 {
        '7'
    } else if d == 8 {
        '8'
    } else {
        '9'
    }
}

/// The decimal digits of `n`, most significant first, no sign or padding.
pub open spec fn spec_dec_u64(n: nat) -> Seq<char>
    decreases n,
{
    if n < 10 {
        seq![spec_digit_char(n)]
    } else {
        spec_dec_u64(n / 10).push(spec_digit_char(n % 10))
    }
}

/// The decimal form of a signed number: a minus sign for negatives, then digits.
pub open spec fn spec_dec_i64(v: int) -> Seq<char> {
    if v < 0 {
        seq!['-'] + spec_dec_u64((-v) as nat)
    } else {
        spec_dec_u64(v as nat)
    }
}

/// The text a boolean displays as.
pub open spec fn spec_bool_str(b: bool) -> Seq<char> {
    if b {
        "true"@
    } else {
        "false"@
    }
}

/// Relies on `u64`'s standard `Display`: the plain decimal digits of the
/// value, most significant first, without sign, padding or separators.
#[verifier::external_body]
pub fn u64_to_dec_string(v: u64) -> (r: String)
    ensures
        r@ == spec_dec_u64(v as nat),
{
    v.to_string()
}

/// Relies on `i64`'s standard `Display`: a leading minus sign for negative
/// values, then the plain decimal digits.
#[verifier::external_body]
pub fn i64_to_dec_string(v: i64) -> (r: String)
    ensures
        r@ == spec_dec_i64(v as int),
{
    v.to_string()
}

/// The text a boolean displays as.
pub fn bool_to_string(b: bool) -> (r: String)
    ensures
        r@ == spec_bool_str(b),
{
    if b {
        String::from_str("true")
    } else {
        String::from_str("false")
    }
}

} // verus!
