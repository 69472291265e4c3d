//! Hit-count map observers, implementing AFL's hit-count buckets.
use vstd::prelude::*;
use crate::common::Named;
use crate::error::Error;
use crate::executors::ExitKind;
use crate::observers::Observer;
use super::{count_set_at, MapObserver};

verus! {

/// The bucket that a raw hit count of an edge falls into.
///
/// Counts are grouped into the classes `0`, `1`, `2`, `3`, `4..=7`,
/// `8..=15`, `16..=31`, `32..=127` and `128..=255`, each class being
/// represented by a single bit.
pub open spec fn spec_count_class(b: u8) -> u8 {
    if b == 0 {
        0
    } else if b == 1 {
        1
    } else if b == 2 {
        2
    } else if b == 3 {
        4
    } else if b <= 7 {
        8
    } else if b <= 15 {
        16
    } else if b <= 31 {
        32
    } else if b <= 127 {
        64
    } else {
        128
    }
}

/// The bucket of a pair of hit counts packed into a `u16`, high byte and
/// low byte classified independently.
pub open spec fn spec_count_class_16(v: u16) -> u16 {
    ((spec_count_class((v / 256) as u8) as int) * 256 + spec_count_class((v % 256) as u8) as int) as u16
}

/// Looks up the bucket of a single hit count.
pub fn count_class(b: u8) -> (r: u8)
    ensures
        r == spec_count_class(b),
{
    if b == 0 {
        0
    } else if b == 1 {
        1
    } else if b == 2 {
        2
    } else if b == 3 {
        4
    } else if b <= 7 {
        8
    } else if b <= 15 {
        16
    } else if b <= 31 {
        32
    } else if b <= 127 {
        64
    } else {
        128
    }
}

/// Looks up the buckets of two hit counts at once, packed in a `u16`.
pub fn count_class_16(v: u16) -> (r: u16)
    ensures
        r == spec_count_class_16(v),
{
    let hi = count_class((v / 256) as u8);
    let lo = count_class((v % 256) as u8);
    (hi as u16) * 256 + (lo as u16)
}

/// Replaces every hit count of the map by its bucket.
pub fn classify_counts(map: &mut Vec<u8>)
    ensures
        final(map)@.len() == old(map)@.len(),
        forall|i: int|
            0 <= i < old(map)@.len() ==> #[trigger] final(map)@[i] == spec_count_class(old(map)@[i]),
{
    let n = map.len();
    let mut i: usize = 0;
    while i < n
        invariant
            n == old(map)@.len(),
            map@.len() == n,
            0 <= i <= n,
            forall|j: int| 0 <= j < i ==> #[trigger] map@[j] == spec_count_class(old(map)@[j]),
            forall|j: int| i <= j < n ==> #[trigger] map@[j] == old(map)@[j],
        decreases n - i,
    {
        let c = count_class(map[i]);
        map.set(i, c);
        i = i + 1;
    }
}

/// Every bucket is either empty or a single bit.
pub proof fn lemma_count_class_single_bit(b: u8)
    ensures
        ({
            let c = spec_count_class(b);
            c == 0 || c == 1 || c == 2 || c == 4 || c == 8 || c == 16 || c == 32 || c == 64 || c == 128
        }),
{
}

/// The buckets are AFL's: counts 0, 1 and 2 keep their value, 3 goes to 4,
/// 4..=7 to 8, 8..=15 to 16, 16..=31 to 32, 32..=127 to 64 and 128..=255 to 128.
pub proof fn lemma_count_class_table(b: u8)
    ensures
        b <= 2 ==> spec_count_class(b) == b,
        b == 3 ==> spec_count_class(b) == 4,
        4 <= b <= 7 ==> spec_count_class(b) == 8,
        8 <= b <= 15 ==> spec_count_class(b) == 16,
        16 <= b <= 31 ==> spec_count_class(b) == 32,
        32 <= b <= 127 ==> spec_count_class(b) == 64,
        128 <= b ==> spec_count_class(b) == 128,
{
}

/// Bucketing keeps the order of hit counts.
pub proof fn lemma_count_class_monotonic(a: u8, b: u8)
    requires
        a <= b,
    ensures
        spec_count_class(a) <= spec_count_class(b),
{
}

/// Only a count of zero falls into the empty bucket.
pub proof fn lemma_count_class_zero(b: u8)
    ensures
        spec_count_class(b) == 0 <==> b == 0,
{
}

/// The two-byte lookup agrees with classifying each byte on its own.
pub proof fn lemma_count_class_16_bytes(hi: u8, lo: u8)
    ensures
        spec_count_class_16(((hi as int) * 256 + lo as int) as u16) == ((spec_count_class(hi) as int) * 256
            + spec_count_class(lo) as int) as u16,
{
    let v: u16 = ((hi as int) * 256 + lo as int) as u16;
    assert(v / 256 == hi);
    assert(v % 256 == lo);
}

/// Replaces every entry of a map observer by its bucket.
fn classify_observer<M: MapObserver>(base: &mut M)
    ensures
        final(base).spec_map().len() == old(base).spec_map().len(),
        forall|i: int|
            0 <= i < old(base).spec_map().len() ==> #[trigger] final(base).spec_map()[i]
                == spec_count_class(old(base).spec_map()[i]),
        final(base).spec_initial() == old(base).spec_initial(),
        final(base).spec_name() == old(base).spec_name(),
{
    let n = base.len();
    let mut i: usize = 0;
    while i < n
        invariant
            n == old(base).spec_map().len(),
            base.spec_map().len() == n,
            0 <= i <= n,
            base.spec_initial() == old(base).spec_initial(),
            base.spec_name() == old(base).spec_name(),
            forall|j: int| 0 <= j < i ==> #[trigger] base.spec_map()[j] == spec_count_class(old(base).spec_map()[j]),
            forall|j: int| i <= j < n ==> #[trigger] base.spec_map()[j] == old(base).spec_map()[j],
        decreases n - i,
    {
        let v = base.get(i);
        let c = count_class(v);
        base.set(i, c);
        i = i + 1;
    }
}

/// Whether `after` is `before` with every hit count of its map replaced by
/// its bucket, its length, initial value and name unchanged.
pub open spec fn spec_classified<M: MapObserver>(before: M, after: M) -> bool {
    &&& after.spec_map().len() == before.spec_map().len()
    &&& forall|i: int|
        0 <= i < before.spec_map().len() ==> #[trigger] after.spec_map()[i] == spec_count_class(
            before.spec_map()[i],
        )
    &&& after.spec_initial() == before.spec_initial()
    &&& after.spec_name() == before.spec_name()
}

/// Map observer with AFL-like hit-count post-processing: after each run,
/// every entry of the wrapped map is replaced by its bucket.
#[derive(Clone, Debug)]
pub struct HitcountsMapObserver<M> {
    base: M,
}

impl<M> HitcountsMapObserver<M> {
    /// Creates a new observer around `base`.
    pub fn new(base: M) -> (r: Self)
        ensures
            r.base() == base,
    {
        HitcountsMapObserver { base }
    }

    /// The wrapped observer.
    pub closed spec fn base(&self) -> M {
        self.base
    }

    /// The wrapped observer.
    pub fn inner(&self) -> (r: &M)
        ensures
            *r == self.base(),
    {
        &self.base
    }

    /// Gives back the wrapped observer.
    pub fn into_inner(self) -> (r: M)
        ensures
            r == self.base(),
    {
        self.base
    }
}

impl<M: MapObserver> HitcountsMapObserver<M> {
    /// Replaces every hit count of the wrapped map by its bucket.
    pub fn classify(&mut self)
        ensures
            final(self).spec_map().len() == old(self).spec_map().len(),
            forall|i: int|
                0 <= i < old(self).spec_map().len() ==> #[trigger] final(self).spec_map()[i]
                    == spec_count_class(old(self).spec_map()[i]),
            final(self).spec_initial() == old(self).spec_initial(),
            final(self).spec_name() == old(self).spec_name(),
    {
        classify_observer(&mut self.base);
    }
}

impl<M: Named> Named for HitcountsMapObserver<M> {
    open spec fn spec_name(&self) -> Seq<char> {
        self.base().spec_name()
    }

    fn name(&self) -> (r: String) {
        self.base.name()
    }
}

impl<M: MapObserver + Observer> Observer for HitcountsMapObserver<M> {
    /// The wrapped observer's hook runs.
    open spec fn spec_pre_exec(&self, after: Self, r: Result<(), Error>) -> bool {
        self.base().spec_pre_exec(after.base(), r)
    }

    /// The hit counts of the wrapped map are bucketed, then the wrapped
    /// observer's hook runs.
    open spec fn spec_post_exec(&self, exit_kind: ExitKind, after: Self, r: Result<(), Error>) -> bool {
        exists|mid: M|
            spec_classified(self.base(), mid) && #[trigger] mid.spec_post_exec(
                exit_kind,
                after.base(),
                r,
            )
    }

    /// Runs the wrapped observer's hook.
    fn pre_exec(&mut self) -> (r: Result<(), Error>) {
        self.base.pre_exec()
    }

    /// Buckets the hit counts, then runs the wrapped observer's hook.
    fn post_exec(&mut self, exit_kind: &ExitKind) -> (r: Result<(), Error>) {
        self.classify();
        let ghost mid = self.base;
        let r = self.base.post_exec(exit_kind);
        assert(spec_classified(old(self).base(), mid));
        assert(mid.spec_post_exec(*exit_kind, self.base(), r));
        r
    }
}

impl<M: MapObserver> MapObserver for HitcountsMapObserver<M> {
    open spec fn spec_map(&self) -> Seq<u8> {
        self.base().spec_map()
    }

    open spec fn spec_initial(&self) -> u8 {
        self.base().spec_initial()
    }

    fn len(&self) -> (r: usize) {
        self.base.len()
    }

    fn get(&self, idx: usize) -> (r: u8) {
        self.base.get(idx)
    }

    fn set(&mut self, idx: usize, val: u8) {
        self.base.set(idx, val);
    }

    fn usable_count(&self) -> (r: usize) {
        self.base.usable_count()
    }

    fn count_bytes(&self) -> (r: u64) {
        self.base.count_bytes()
    }

    fn initial(&self) -> (r: u8) {
        self.base.initial()
    }

    fn reset_map(&mut self) -> (r: Result<(), Error>) {
        self.base.reset_map()
    }

    fn to_vec(&self) -> (r: Vec<u8>) {
        self.base.to_vec()
    }

    fn how_many_set(&self, indexes: &Vec<usize>) -> (r: usize) {
        self.base.how_many_set(indexes)
    }
}

/// Map observer with hit-count post-processing, for wrapped observers that
/// are walked entry by entry rather than as one slice.
#[derive(Clone, Debug)]
pub struct HitcountsIterableMapObserver<M> {
    base: M,
}

impl<M> HitcountsIterableMapObserver<M> {
    /// Creates a new observer around `base`.
    pub fn new(base: M) -> (r: Self)
        ensures
            r.base() == base,
    {
        HitcountsIterableMapObserver { base }
    }

    /// The wrapped observer.
    pub closed spec fn base(&self) -> M {
        self.base
    }

    /// The wrapped observer.
    pub fn inner(&self) -> (r: &M)
        ensures
            *r == self.base(),
    {
        &self.base
    }

    /// Gives back the wrapped observer.
    pub fn into_inner(self) -> (r: M)
        ensures
            r == self.base(),
    {
        self.base
    }
}

impl<M: MapObserver> HitcountsIterableMapObserver<M> {
    /// Replaces every hit count of the wrapped map by its bucket.
    pub fn classify(&mut self)
        ensures
            final(self).spec_map().len() == old(self).spec_map().len(),
            forall|i: int|
                0 <= i < old(self).spec_map().len() ==> #[trigger] final(self).spec_map()[i]
                    == spec_count_class(old(self).spec_map()[i]),
            final(self).spec_initial() == old(self).spec_initial(),
            final(self).spec_name() == old(self).spec_name(),
    {
        classify_observer(&mut self.base);
    }
}

impl<M: Named> Named for HitcountsIterableMapObserver<M> {
    open spec fn spec_name(&self) -> Seq<char> {
        self.base().spec_name()
    }

    fn name(&self) -> (r: String) {
        self.base.name()
    }
}

impl<M: MapObserver + Observer> Observer for HitcountsIterableMapObserver<M> {
    /// The wrapped observer's hook runs.
    open spec fn spec_pre_exec(&self, after: Self, r: Result<(), Error>) -> bool {
        self.base().spec_pre_exec(after.base(), r)
    }

    /// The hit counts of the wrapped map are bucketed, then the wrapped
    /// observer's hook runs.
    open spec fn spec_post_exec(&self, exit_kind: ExitKind, after: Self, r: Result<(), Error>) -> bool {
        exists|mid: M|
            spec_classified(self.base(), mid) && #[trigger] mid.spec_post_exec(
                exit_kind,
                after.base(),
                r,
            )
    }

    /// Runs the wrapped observer's hook.
    fn pre_exec(&mut self) -> (r: Result<(), Error>) {
        self.base.pre_exec()
    }

    /// Buckets the hit counts, then runs the wrapped observer's hook.
    fn post_exec(&mut self, exit_kind: &ExitKind) -> (r: Result<(), Error>) {
        self.classify();
        let ghost mid = self.base;
        let r = self.base.post_exec(exit_kind);
        assert(spec_classified(old(self).base(), mid));
        assert(mid.spec_post_exec(*exit_kind, self.base(), r));
        r
    }
}

impl<M: MapObserver> MapObserver for HitcountsIterableMapObserver<M> {
    open spec fn spec_map(&self) -> Seq<u8> {
        self.base().spec_map()
    }

    open spec fn spec_initial(&self) -> u8 {
        self.base().spec_initial()
    }

    fn len(&self) -> (r: usize) {
        self.base.len()
    }

    fn get(&self, idx: usize) -> (r: u8) {
        self.base.get(idx)
    }

    fn set(&mut self, idx: usize, val: u8) {
        self.base.set(idx, val);
    }

    fn usable_count(&self) -> (r: usize) {
        self.base.usable_count()
    }

    fn count_bytes(&self) -> (r: u64) {
        self.base.count_bytes()
    }

    fn initial(&self) -> (r: u8) {
        self.base.initial()
    }

    fn reset_map(&mut self) -> (r: Result<(), Error>) {
        self.base.reset_map()
    }

    fn to_vec(&self) -> (r: Vec<u8>) {
        self.base.to_vec()
    }

    fn how_many_set(&self, indexes: &Vec<usize>) -> (r: usize) {
        self.base.how_many_set(indexes)
    }
}

} // verus!
