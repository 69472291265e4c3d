//! Traits and helpers shared by the components of the fuzzer.
use vstd::prelude::*;
use crate::corpus::testcase::push_char;
use vstd::string::StrSliceExecFns;

verus! {

/// A component with a name, used to find it again among its peers.
pub trait Named {
    /// The name.
    spec fn spec_name(&self) -> Seq<char>;

    /// The name.
    fn name(&self) -> (r: String)
        ensures
            r@ == self.spec_name(),
    ;
}

/// Whether two strings hold the same characters.
pub fn str_eq(a: &str, b: &str) -> (r: bool)
    ensures
        r == (a@ == b@),
{
    let n = a.unicode_len();
    if n != b.unicode_len() {
        return false;
    }
    let mut i: usize = 0;
    while i < n
        invariant
            n == a@.len(),
            n == b@.len(),
            0 <= i <= n,
            forall|k: int| 0 <= k < i ==> a@[k] == b@[k],
        decreases n - i,
    {
        if a.get_char(i) != b.get_char(i) {
            return false;
        }
        i = i + 1;
    }
    assert(a@ =~= b@);
    true
}

/// The decimal digit character of `d`.
pub open spec fn spec_digit_char(d: nat) -> char {
    ((d + 48) as u8) as char
}

/// The decimal digits of `n`, most significant first, without leading zeros.
pub open spec fn spec_digits(n: nat) -> Seq<char>
    decreases n,
{
    if n < 10 {
        seq![spec_digit_char(n)]
    } else {
        spec_digits(n / 10).push(spec_digit_char(n % 10))
    }
}

/// The decimal notation of `v`, with a leading `-` when it is negative.
pub open spec fn spec_decimal(v: int) -> Seq<char> {
    if v < 0 {
        seq!['-'] + spec_digits((-v) as nat)
    } else {
        spec_digits(v as nat)
    }
}

/// Appends the decimal digits of `n`.
fn push_digits(s: &mut String, n: u64)
    ensures
        final(s)@ == old(s)@ + spec_digits(n as nat),
    decreases n,
{
    if n >= 10 {
        push_digits(s, n / 10);
    }
    let c = ((n % 10 + 48) as u8) as char;
    push_char(s, c);
    proof {
        assert(old(s)@ + spec_digits(n as nat) =~= if n >= 10 {
            old(s)@ + spec_digits((n / 10) as nat) + seq![c]
        } else {
            old(s)@ + seq![c]
        });
    }
}

/// The decimal notation of an unsigned `v`, as `format!("{v}")` writes it.
pub fn decimal_string_u64(v: u64) -> (r: String)
    ensures
        r@ == spec_digits(v as nat),
{
    let mut s = String::new();
    push_digits(&mut s, v);
    assert(s@ =~= spec_digits(v as nat));
    s
}

/// The decimal notation of `v`, as `format!("{v}")` writes it.
pub fn decimal_string(v: i64) -> (r: String)
    ensures
        r@ == spec_decimal(v as int),
{
    let mut s = String::new();
    if v < 0 {
        push_char(&mut s, '-');
        let m: u64 = if v == i64::MIN {
            9223372036854775808u64
        } else {
            (-v) as u64
        };
        push_digits(&mut s, m);
        assert(s@ =~= seq!['-'] + spec_digits((-v) as nat));
    } else {
        push_digits(&mut s, v as u64);
        assert(s@ =~= spec_digits(v as nat));
    }
    s
}

} // verus!
