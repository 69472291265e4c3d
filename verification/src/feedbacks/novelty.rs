//! Novelty filters and reducers used by map feedbacks.
use vstd::prelude::*;

verus! {

/// The smallest power of two that is at least `n`, searching from `p`.
pub open spec fn next_pow2_from(p: nat, n: nat) -> nat
    decreases if p >= n {
        0
    } else {
        n - p
    },
{
    if p == 0 || p >= n {
        p
    } else {
        next_pow2_from(2 * p, n)
    }
}

/// The next power of two of `n`, saturating at `max`: `1` for `n <= 1`,
/// else the smallest power of two that is at least `n`, or `max` if that
/// power exceeds `max`.
pub open spec fn spec_saturating_next_pow2(n: nat, max: nat) -> nat {
    if n <= 1 {
        1
    } else if next_pow2_from(1, n) > max {
        max
    } else {
        next_pow2_from(1, n)
    }
}

/// The search never goes below where it starts.
pub proof fn lemma_next_pow2_from_ge(p: nat, n: nat)
    ensures
        next_pow2_from(p, n) >= p,
        p > 0 ==> next_pow2_from(p, n) >= n,
    decreases n - p,
{
    if p > 0 && p < n {
        if 2 * p < n {
            lemma_next_pow2_from_ge(2 * p, n);
        } else {
            assert(next_pow2_from(2 * p, n) == 2 * p);
        }
    }
}

/// A `IsNovel` function decides whether a reduced value is novel compared
/// to the value already in the history.
pub trait IsNovel<T> {
    /// Whether `new` is a novelty over `old`.
    spec fn spec_is_novel(old: T, new: T) -> bool;

    /// Whether `new` is a novelty over `old`.
    fn is_novel(old: T, new: T) -> (r: bool)
        ensures
            r == Self::spec_is_novel(old, new),
    ;
}

/// Considers everything a novelty. Here mostly for debugging.
#[derive(Debug, Clone)]
pub struct AllIsNovel {}

/// Considers as novel a reduced value that differs from the old value.
#[derive(Debug, Clone)]
pub struct DifferentIsNovel {}

/// Considers as novel only the values that reach at least the next
/// power-of-two class above the old value.
#[derive(Debug, Clone)]
pub struct NextPow2IsNovel {}

/// Considers as novel only `1` or the maximal value, when larger than the old value.
#[derive(Debug, Clone)]
pub struct OneOrFilledIsNovel {}

/// The next power of two of `n` as a `u8`, saturating at the maximal value.
/// Values up to `1` give `1`.
pub fn saturating_next_power_of_two_u8(n: u8) -> (r: u8)
    ensures
        r == spec_saturating_next_pow2(n as nat, u8::MAX as nat),
{
    if n <= 1 {
        return 1;
    }
    let mut p: u8 = 1;
    while p < n
        invariant
            1 <= p,
            next_pow2_from(p as nat, n as nat) == next_pow2_from(1, n as nat),
        decreases u8::MAX - p,
    {
        if p > u8::MAX / 2 {
            proof {
                lemma_next_pow2_from_ge(2 * (p as nat), n as nat);
            }
            return u8::MAX;
        }
        p = p * 2;
    }
    p
}

impl IsNovel<u8> for AllIsNovel {
    open spec fn spec_is_novel(old: u8, new: u8) -> bool {
        true
    }

    fn is_novel(_old: u8, _new: u8) -> (r: bool) {
        true
    }
}

impl IsNovel<u8> for DifferentIsNovel {
    open spec fn spec_is_novel(old: u8, new: u8) -> bool {
        old != new
    }

    fn is_novel(old: u8, new: u8) -> (r: bool) {
        old != new
    }
}

impl IsNovel<u8> for NextPow2IsNovel {
    open spec fn spec_is_novel(old: u8, new: u8) -> bool {
        new > old && new >= spec_saturating_next_pow2(
            if old == u8::MAX {
                old as nat
            } else {
                (old + 1) as nat
            },
            u8::MAX as nat,
        )
    }

    fn is_novel(old: u8, new: u8) -> (r: bool) {
        if new <= old {
            false
        } else {
            let pow2 = saturating_next_power_of_two_u8(old.saturating_add(1));
            new >= pow2
        }
    }
}

impl IsNovel<u8> for OneOrFilledIsNovel {
    open spec fn spec_is_novel(old: u8, new: u8) -> bool {
        (new == 1 || new == u8::MAX) && new > old
    }

    fn is_novel(old: u8, new: u8) -> (r: bool) {
        (new == 1 || new == u8::MAX) && new > old
    }
}

/// The next power of two of `n` as a `u16`, saturating at the maximal value.
/// Values up to `1` give `1`.
pub fn saturating_next_power_of_two_u16(n: u16) -> (r: u16)
    ensures
        r == spec_saturating_next_pow2(n as nat, u16::MAX as nat),
{
    if n <= 1 {
        return 1;
    }
    let mut p: u16 = 1;
    while p < n
        invariant
            1 <= p,
            next_pow2_from(p as nat, n as nat) == next_pow2_from(1, n as nat),
        decreases u16::MAX - p,
    {
        if p > u16::MAX / 2 {
            proof {
                lemma_next_pow2_from_ge(2 * (p as nat), n as nat);
            }
            return u16::MAX;
        }
        p = p * 2;
    }
    p
}

impl IsNovel<u16> for AllIsNovel {
    open spec fn spec_is_novel(old: u16, new: u16) -> bool {
        true
    }

    fn is_novel(_old: u16, _new: u16) -> (r: bool) {
        true
    }
}

impl IsNovel<u16> for DifferentIsNovel {
    open spec fn spec_is_novel(old: u16, new: u16) -> bool {
        old != new
    }

    fn is_novel(old: u16, new: u16) -> (r: bool) {
        old != new
    }
}

impl IsNovel<u16> for NextPow2IsNovel {
    open spec fn spec_is_novel(old: u16, new: u16) -> bool {
        new > old && new >= spec_saturating_next_pow2(
            if old == u16::MAX {
                old as nat
            } else {
                (old + 1) as nat
            },
            u16::MAX as nat,
        )
    }

    fn is_novel(old: u16, new: u16) -> (r: bool) {
        if new <= old {
            false
        } else {
            let pow2 = saturating_next_power_of_two_u16(old.saturating_add(1));
            new >= pow2
        }
    }
}

impl IsNovel<u16> for OneOrFilledIsNovel {
    open spec fn spec_is_novel(old: u16, new: u16) -> bool {
        (new == 1 || new == u16::MAX) && new > old
    }

    fn is_novel(old: u16, new: u16) -> (r: bool) {
        (new == 1 || new == u16::MAX) && new > old
    }
}

/// The next power of two of `n` as a `u32`, saturating at the maximal value.
/// Values up to `1` give `1`.
pub fn saturating_next_power_of_two_u32(n: u32) -> (r: u32)
    ensures
        r == spec_saturating_next_pow2(n as nat, u32::MAX as nat),
{
    if n <= 1 {
        return 1;
    }
    let mut p: u32 = 1;
    while p < n
        invariant
            1 <= p,
            next_pow2_from(p as nat, n as nat) == next_pow2_from(1, n as nat),
        decreases u32::MAX - p,
    {
        if p > u32::MAX / 2 {
            proof {
                lemma_next_pow2_from_ge(2 * (p as nat), n as nat);
            }
            return u32::MAX;
        }
        p = p * 2;
    }
    p
}

impl IsNovel<u32> for AllIsNovel {
    open spec fn spec_is_novel(old: u32, new: u32) -> bool {
        true
    }

    fn is_novel(_old: u32, _new: u32) -> (r: bool) {
        true
    }
}

impl IsNovel<u32> for DifferentIsNovel {
    open spec fn spec_is_novel(old: u32, new: u32) -> bool {
        old != new
    }

    fn is_novel(old: u32, new: u32) -> (r: bool) {
        old != new
    }
}

impl IsNovel<u32> for NextPow2IsNovel {
    open spec fn spec_is_novel(old: u32, new: u32) -> bool {
        new > old && new >= spec_saturating_next_pow2(
            if old == u32::MAX {
                old as nat
            } else {
                (old + 1) as nat
            },
            u32::MAX as nat,
        )
    }

    fn is_novel(old: u32, new: u32) -> (r: bool) {
        if new <= old {
            false
        } else {
            let pow2 = saturating_next_power_of_two_u32(old.saturating_add(1));
            new >= pow2
        }
    }
}

impl IsNovel<u32> for OneOrFilledIsNovel {
    open spec fn spec_is_novel(old: u32, new: u32) -> bool {
        (new == 1 || new == u32::MAX) && new > old
    }

    fn is_novel(old: u32, new: u32) -> (r: bool) {
        (new == 1 || new == u32::MAX) && new > old
    }
}

/// The next power of two of `n` as a `u64`, saturating at the maximal value.
/// Values up to `1` give `1`.
pub fn saturating_next_power_of_two_u64(n: u64) -> (r: u64)
    ensures
        r == spec_saturating_next_pow2(n as nat, u64::MAX as nat),
{
    if n <= 1 {
        return 1;
    }
    let mut p: u64 = 1;
    while p < n
        invariant
            1 <= p,
            next_pow2_from(p as nat, n as nat) == next_pow2_from(1, n as nat),
        decreases u64::MAX - p,
    {
        if p > u64::MAX / 2 {
            proof {
                lemma_next_pow2_from_ge(2 * (p as nat), n as nat);
            }
            return u64::MAX;
        }
        p = p * 2;
    }
    p
}

impl IsNovel<u64> for AllIsNovel {
    open spec fn spec_is_novel(old: u64, new: u64) -> bool {
        true
    }

    fn is_novel(_old: u64, _new: u64) -> (r: bool) {
        true
    }
}

impl IsNovel<u64> for DifferentIsNovel {
    open spec fn spec_is_novel(old: u64, new: u64) -> bool {
        old != new
    }

    fn is_novel(old: u64, new: u64) -> (r: bool) {
        old != new
    }
}

impl IsNovel<u64> for NextPow2IsNovel {
    open spec fn spec_is_novel(old: u64, new: u64) -> bool {
        new > old && new >= spec_saturating_next_pow2(
            if old == u64::MAX {
                old as nat
            } else {
                (old + 1) as nat
            },
            u64::MAX as nat,
        )
    }

    fn is_novel(old: u64, new: u64) -> (r: bool) {
        if new <= old {
            false
        } else {
            let pow2 = saturating_next_power_of_two_u64(old.saturating_add(1));
            new >= pow2
        }
    }
}

impl IsNovel<u64> for OneOrFilledIsNovel {
    open spec fn spec_is_novel(old: u64, new: u64) -> bool {
        (new == 1 || new == u64::MAX) && new > old
    }

    fn is_novel(old: u64, new: u64) -> (r: bool) {
        (new == 1 || new == u64::MAX) && new > old
    }
}

/// A reducer folds the value of a run into the value of the history.
pub trait Reducer<T> {
    /// The reduction of `history` and `new`.
    spec fn spec_reduce(history: T, new: T) -> T;

    /// The reduction of `history` and `new`.
    fn reduce(history: T, new: T) -> (r: T)
        ensures
            r == Self::spec_reduce(history, new),
    ;
}

/// Keeps the larger value.
#[derive(Debug, Clone)]
pub struct MaxReducer {}

/// Keeps the smaller value.
#[derive(Debug, Clone)]
pub struct MinReducer {}

/// Combines the bits of both values.
#[derive(Debug, Clone)]
pub struct OrReducer {}

/// Keeps the history unchanged.
#[derive(Debug, Clone)]
pub struct NopReducer {}

impl Reducer<u8> for MaxReducer {
    open spec fn spec_reduce(history: u8, new: u8) -> u8 {
        if history >= new {
            history
        } else {
            new
        }
    }

    fn reduce(history: u8, new: u8) -> (r: u8) {
        if history >= new {
            history
        } else {
            new
        }
    }
}

impl Reducer<u8> for MinReducer {
    open spec fn spec_reduce(history: u8, new: u8) -> u8 {
        if history <= new {
            history
        } else {
            new
        }
    }

    fn reduce(history: u8, new: u8) -> (r: u8) {
        if history <= new {
            history
        } else {
            new
        }
    }
}

impl Reducer<u8> for OrReducer {
    open spec fn spec_reduce(history: u8, new: u8) -> u8 {
        history | new
    }

    fn reduce(history: u8, new: u8) -> (r: u8) {
        history | new
    }
}

impl Reducer<u8> for NopReducer {
    open spec fn spec_reduce(history: u8, new: u8) -> u8 {
        history
    }

    fn reduce(history: u8, _new: u8) -> (r: u8) {
        history
    }
}

/// A different value is a novelty, whether it went up or down; an equal
/// value never is.
pub proof fn lemma_different_is_novel(old8: u8, new8: u8, old16: u16, new16: u16, old32: u32, new32: u32, old64: u64, new64: u64)
    ensures
        <DifferentIsNovel as IsNovel<u8>>::spec_is_novel(old8, new8) <==> old8 != new8,
        <DifferentIsNovel as IsNovel<u16>>::spec_is_novel(old16, new16) <==> old16 != new16,
        <DifferentIsNovel as IsNovel<u32>>::spec_is_novel(old32, new32) <==> old32 != new32,
        <DifferentIsNovel as IsNovel<u64>>::spec_is_novel(old64, new64) <==> old64 != new64,
{
}

} // verus!
