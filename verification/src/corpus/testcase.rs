//! Testcases and their identifiers.
use std::collections::hash_map::DefaultHasher;
use std::hash::Hasher;
use std::rc::Rc;
use vstd::prelude::*;
use vstd::std_specs::hash::DefaultHasherAdditionalSpecFns;
use crate::inputs::{HasLen, Input};

verus! {

/// A testcase identifier: a 64-bit integer derived from the input.
#[derive(Debug, Clone, Copy, PartialEq, Eq, Structural, Hash, PartialOrd, Ord)]
pub struct TestcaseId(pub u64);

/// The lowercase hexadecimal digit of `d`.
pub open spec fn spec_hex_digit(d: u64) -> char {
    if d < 10 {
        ((d + 48) as u8) as char
    } else {
        ((d + 87) as u8) as char
    }
}

/// The 16 lowercase hexadecimal digits of `v`, most significant first.
pub open spec fn spec_hex16(v: u64) -> Seq<char> {
    Seq::new(16, |i: int| spec_hex_digit(((v as int / pow16(15 - i)) % 16) as u64))
}

/// `16` to the power `e`.
pub open spec fn pow16(e: int) -> int
    decreases e,
{
    if e <= 0 {
        1
    } else {
        16 * pow16(e - 1)
    }
}

/// Appends a character to a string.
#[verifier::external_body]
pub(crate) fn push_char(s: &mut String, c: char)
    ensures
        final(s)@ == old(s)@.push(c),
{
    s.push(c);
}

/// The lowercase hexadecimal digit of `d`.
fn hex_digit(d: u64) -> (r: char)
    requires
        d < 16,
    ensures
        r == spec_hex_digit(d),
{
    if d < 10 {
        ((d + 48) as u8) as char
    } else {
        ((d + 87) as u8) as char
    }
}

impl TestcaseId {
    /// Default file name for a testcase: its id as 16 lowercase hexadecimal digits.
    pub fn default_filename(&self) -> (r: String)
        ensures
            r@ == spec_hex16(self.0),
    {
        let mut s = String::new();
        let mut i: u64 = 0;
        while i < 16
            invariant
                0 <= i <= 16,
                s@.len() == i,
                forall|k: int| 0 <= k < i ==> #[trigger] s@[k] == spec_hex16(self.0)[k],
            decreases 16 - i,
        {
            let shift: u64 = (15 - i) * 4;
            let d = (self.0 >> shift) & 15;
            proof {
                lemma_nibble(self.0, (15 - i) as u64);
            }
            let c = hex_digit(d);
            push_char(&mut s, c);
            i = i + 1;
        }
        assert(s@ =~= spec_hex16(self.0));
        s
    }
}

/// Shifting right by four bits per digit and masking gives the digit.
proof fn lemma_nibble(v: u64, e: u64)
    requires
        e < 16,
    ensures
        (v >> (e * 4)) & 15 == ((v as int / pow16(e as int)) % 16) as u64,
        (v >> (e * 4)) & 15 < 16,
{
    let s: u64 = (e * 4) as u64;
    vstd::bits::lemma_u64_shr_is_div(v, s);
    lemma_pow16_pow2(e as nat);
    let w: u64 = v >> s;
    assert(w & 15 == w % 16) by (bit_vector);
    assert(w & 15 < 16) by (bit_vector);
}

/// `16` to the power `e` is two to the power `4 * e`.
proof fn lemma_pow16_pow2(e: nat)
    ensures
        pow16(e as int) == vstd::arithmetic::power2::pow2(4 * e),
    decreases e,
{
    if e == 0 {
        vstd::arithmetic::power2::lemma2_to64();
    } else {
        lemma_pow16_pow2((e - 1) as nat);
        vstd::arithmetic::power2::lemma2_to64();
        vstd::arithmetic::power2::lemma_pow2_adds(4 * ((e - 1) as nat), 4);
        assert(4 * ((e - 1) as nat) + 4 == 4 * e);
    }
}

/// Whether `c` is a lowercase hexadecimal digit: `0`..=`9` or `a`..=`f`.
pub open spec fn spec_is_lower_hex(c: char) -> bool {
    (48 <= c as int <= 57) || (97 <= c as int <= 102)
}

/// The value of a lowercase hexadecimal digit (`0` is 0, `a` is 10).
pub open spec fn spec_hex_value(c: char) -> int {
    if c as int <= 57 {
        c as int - 48
    } else {
        c as int - 87
    }
}

/// The number that hexadecimal digits write, most significant first.
pub open spec fn spec_hex_read(s: Seq<char>) -> int
    decreases s.len(),
{
    if s.len() == 0 {
        0
    } else {
        spec_hex_read(s.drop_last()) * 16 + spec_hex_value(s.last())
    }
}

/// The digit of a value below 16 reads back as that value.
proof fn lemma_hex_digit_reads_back(d: u64)
    requires
        d < 16,
    ensures
        spec_is_lower_hex(spec_hex_digit(d)),
        spec_hex_value(spec_hex_digit(d)) == d,
{
}

/// The default file name of an id is exactly 16 lowercase hexadecimal
/// digits, and read as a hexadecimal number it gives back the id.
pub proof fn lemma_hex16_reads_back(v: u64)
    ensures
        spec_hex16(v).len() == 16,
        forall|i: int| 0 <= i < 16 ==> spec_is_lower_hex(#[trigger] spec_hex16(v)[i]),
        spec_hex_read(spec_hex16(v)) == v,
{
    let s = spec_hex16(v);
    assert forall|i: int| 0 <= i < 16 implies spec_is_lower_hex(#[trigger] s[i]) by {
        lemma_pow16_positive(15 - i);
        lemma_hex_digit_reads_back(((v as int / pow16(15 - i)) % 16) as u64);
    }
    lemma_hex16_prefix(v, 16);
    assert(s.take(16) =~= s);
}

/// The first `k` digits of the name read as the id without its last
/// `16 - k` digits.
proof fn lemma_hex16_prefix(v: u64, k: int)
    requires
        0 <= k <= 16,
    ensures
        spec_hex_read(spec_hex16(v).take(k)) == v as int / pow16(16 - k),
    decreases k,
{
    let s = spec_hex16(v);
    if k == 0 {
        assert(s.take(0) =~= Seq::<char>::empty());
        lemma_pow16_pow2(16);
        vstd::arithmetic::power2::lemma2_to64();
        vstd::arithmetic::div_mod::lemma_basic_div(v as int, pow16(16));
    } else {
        lemma_hex16_prefix(v, k - 1);
        let p = pow16(16 - k);
        lemma_pow16_positive(16 - k);
        assert(pow16(16 - (k - 1)) == 16 * p);
        let x = v as int / p;
        vstd::arithmetic::div_mod::lemma_div_denominator(v as int, p, 16);
        vstd::arithmetic::div_mod::lemma_fundamental_div_mod(x, 16);
        lemma_hex_digit_reads_back((x % 16) as u64);
        assert(s.take(k).drop_last() =~= s.take(k - 1));
        assert(s.take(k).last() == s[k - 1]);
        assert(p * 16 == 16 * p) by (nonlinear_arith);
    }
}

/// `16` to any power is positive.
proof fn lemma_pow16_positive(e: int)
    ensures
        pow16(e) > 0,
    decreases e,
{
    if e > 0 {
        lemma_pow16_positive(e - 1);
    }
}

/// Indicates how a testcase should be named on disk.
#[derive(Clone, Debug)]
pub enum TestcaseFilenameFormat {
    /// Use the unique testcase id as a name.
    Id,
    /// Use a prefix, a dash, then the id.
    Prefix(String),
    /// Use the given name.
    Custom(String),
}

impl TestcaseFilenameFormat {
    /// A copy of this format.
    pub fn duplicate(&self) -> (r: Self)
        ensures
            r == *self,
    {
        match self {
            TestcaseFilenameFormat::Id => TestcaseFilenameFormat::Id,
            TestcaseFilenameFormat::Prefix(p) => TestcaseFilenameFormat::Prefix(p.clone()),
            TestcaseFilenameFormat::Custom(n) => TestcaseFilenameFormat::Custom(n.clone()),
        }
    }

    /// The file name of the testcase with the given id.
    pub open spec fn spec_filename(&self, id: TestcaseId) -> Seq<char> {
        match self {
            TestcaseFilenameFormat::Id => spec_hex16(id.0),
            TestcaseFilenameFormat::Prefix(prefix) => prefix@ + "-"@ + spec_hex16(id.0),
            TestcaseFilenameFormat::Custom(name) => name@,
        }
    }

    /// Get the actual file name.
    pub fn to_filename(&self, id: &TestcaseId) -> (r: String)
        ensures
            r@ == self.spec_filename(*id),
    {
        match self {
            TestcaseFilenameFormat::Id => id.default_filename(),
            TestcaseFilenameFormat::Prefix(prefix) => {
                let mut s = prefix.clone();
                s.append("-");
                let f = id.default_filename();
                s.append(f.as_str());
                s
            },
            TestcaseFilenameFormat::Custom(name) => name.clone(),
        }
    }
}

impl Default for TestcaseFilenameFormat {
    fn default() -> (r: Self)
        ensures
            r is Id,
    {
        TestcaseFilenameFormat::Id
    }
}

/// The id of an input: the hash of its identifying bytes.
pub open spec fn spec_input_id<I: Input>(input: I) -> TestcaseId {
    TestcaseId(DefaultHasher::spec_finish(seq![input.spec_id_bytes()]))
}

/// Makes a new pointer to the same shared value.
#[verifier::external_body]
fn rc_clone<T>(rc: &Rc<T>) -> (r: Rc<T>)
    ensures
        r == *rc,
{
    Rc::clone(rc)
}

/// An entry in a corpus: an input and its unique id.
#[derive(Debug)]
pub struct Testcase<I> {
    input: Rc<I>,
    id: TestcaseId,
}

impl<I> Testcase<I> {
    /// The input.
    pub closed spec fn spec_input(&self) -> I {
        *self.input
    }

    /// The id.
    pub closed spec fn spec_id(&self) -> TestcaseId {
        self.id
    }

    /// Get the input.
    pub fn input(&self) -> (r: Rc<I>)
        ensures
            *r == self.spec_input(),
    {
        rc_clone(&self.input)
    }

    /// Get the associated unique id.
    pub fn id(&self) -> (r: &TestcaseId)
        ensures
            *r == self.spec_id(),
    {
        &self.id
    }

    /// A second handle on the same testcase, sharing its input.
    pub fn duplicate(&self) -> (r: Self)
        ensures
            r == *self,
            r.spec_input() == self.spec_input(),
            r.spec_id() == self.spec_id(),
    {
        Testcase { input: rc_clone(&self.input), id: self.id }
    }
}

impl<I: HasLen> Testcase<I> {
    /// Get the input length.
    pub fn input_len(&self) -> (r: usize)
        ensures
            r == self.spec_input().spec_len(),
    {
        self.input.len()
    }
}

impl<I: Input> Testcase<I> {
    /// Create a new testcase given an input; its id is computed from the input.
    pub fn new(input: Rc<I>) -> (r: Self)
        ensures
            r.spec_input() == *input,
            r.spec_id() == spec_input_id(*input),
    {
        let id = Self::compute_id(&input);
        Testcase { input, id }
    }

    /// Get the unique id associated to an input.
    pub fn compute_id(input: &I) -> (r: TestcaseId)
        ensures
            r == spec_input_id(*input),
    {
        let bytes = input.id_bytes();
        let mut hasher = DefaultHasher::new();
        hasher.write(bytes.as_slice());
        let hash = hasher.finish();
        assert(hasher@ =~= seq![input.spec_id_bytes()]);
        TestcaseId(hash)
    }
}

impl<I: Clone> Testcase<I> {
    /// Clone the input embedded in the testcase.
    pub fn cloned_input(&self) -> (r: I)
        ensures
            cloned::<I>(self.spec_input(), r),
    {
        (*self.input).clone()
    }
}

} // verus!
