//! The [`NewHashFeedback`] keeps the hashes of the backtraces seen so far,
//! and finds a run interesting when its hash is new.
use core::marker::PhantomData;
use vstd::prelude::*;
use crate::collections::U64Set;
use crate::common::Named;
use crate::corpus::TestcaseId;
use crate::error::Error;
use crate::executors::ExitKind;
use crate::feedbacks::Feedback;
use crate::observers::ObserverWithHashField;

verus! {

/// The prefix of the metadata names.
pub const NEWHASHFEEDBACK_PREFIX: &'static str = "newhashfeedback_metadata_";

/// The default room of the hash set.
pub const DEFAULT_CAPACITY: usize = 4096;

/// A state holding a set of hashes.
pub trait HashSetState: Sized {
    /// The hashes held.
    spec fn spec_hashes(&self) -> Set<u64>;

    /// A state holding the given set.
    fn with_hash_set(hash_set: U64Set) -> (r: Self)
        ensures
            r.spec_hashes() == hash_set.spec_contents(),
    ;

    /// Adds a hash; `true` when it was not held yet.
    fn update_hash_set(&mut self, value: u64) -> (r: Result<bool, Error>)
        ensures
            r == Ok::<bool, Error>(!old(self).spec_hashes().contains(value)),
            final(self).spec_hashes() == old(self).spec_hashes().insert(value),
    ;
}

/// The hashes a [`NewHashFeedback`] has seen.
#[derive(Debug)]
pub struct NewHashFeedbackMetadata {
    hash_set: U64Set,
}

impl NewHashFeedbackMetadata {
    /// No hash seen.
    pub fn new() -> (r: Self)
        ensures
            r.spec_hashes() == Set::<u64>::empty(),
    {
        NewHashFeedbackMetadata { hash_set: U64Set::new() }
    }

    /// No hash seen, with room for `capacity` hashes.
    pub fn with_capacity(capacity: usize) -> (r: Self)
        ensures
            r.spec_hashes() == Set::<u64>::empty(),
    {
        NewHashFeedbackMetadata { hash_set: U64Set::with_capacity(capacity) }
    }

    /// Forgets every hash.
    pub fn reset(&mut self) -> (r: Result<(), Error>)
        ensures
            r is Ok,
            final(self).spec_hashes() == Set::<u64>::empty(),
    {
        self.hash_set.clear();
        Ok(())
    }

    /// The set of hashes.
    pub fn hash_set(&self) -> (r: &U64Set)
        ensures
            r.spec_contents() == self.spec_hashes(),
    {
        &self.hash_set
    }
}

impl HashSetState for NewHashFeedbackMetadata {
    closed spec fn spec_hashes(&self) -> Set<u64> {
        self.hash_set.spec_contents()
    }

    fn with_hash_set(hash_set: U64Set) -> (r: Self) {
        NewHashFeedbackMetadata { hash_set }
    }

    fn update_hash_set(&mut self, value: u64) -> (r: Result<bool, Error>) {
        let r = self.hash_set.insert(value);
        Ok(r)
    }
}

/// A hash is interesting once: after it is recorded, the same hash is no longer new.
pub proof fn lemma_hash_interesting_once(seen: Set<u64>, h: u64)
    ensures
        seen.insert(h).contains(h),
        !seen.contains(h) ==> seen.insert(h) != seen,
{
    if !seen.contains(h) {
        assert(!seen.contains(h) && seen.insert(h).contains(h));
    }
}

/// Finds a run interesting when the hash its observer reports was not seen before.
#[derive(Debug)]
pub struct NewHashFeedback<O> {
    name: String,
    capacity: usize,
    metadata: NewHashFeedbackMetadata,
    phantom: PhantomData<O>,
}

impl<O> NewHashFeedback<O> {
    /// The hashes seen.
    pub closed spec fn spec_hashes(&self) -> Set<u64> {
        self.metadata.spec_hashes()
    }

    /// The room asked for the hash set.
    pub closed spec fn spec_capacity(&self) -> usize {
        self.capacity
    }

    /// The hashes seen.
    pub fn metadata(&self) -> (r: &NewHashFeedbackMetadata)
        ensures
            r.spec_hashes() == self.spec_hashes(),
    {
        &self.metadata
    }
}

impl<O: Named> NewHashFeedback<O> {
    /// A feedback on the hashes `observer` reports, with the default room.
    pub fn new(observer: &O) -> (r: Self)
        ensures
            r.spec_name() == NEWHASHFEEDBACK_PREFIX@ + observer.spec_name(),
            r.spec_capacity() == DEFAULT_CAPACITY,
            r.spec_hashes() == Set::<u64>::empty(),
    {
        Self::with_capacity(observer, DEFAULT_CAPACITY)
    }

    /// A feedback on the hashes `observer` reports, asking room for `capacity` hashes.
    pub fn with_capacity(observer: &O, capacity: usize) -> (r: Self)
        ensures
            r.spec_name() == NEWHASHFEEDBACK_PREFIX@ + observer.spec_name(),
            r.spec_capacity() == capacity,
            r.spec_hashes() == Set::<u64>::empty(),
    {
        let mut name = NEWHASHFEEDBACK_PREFIX.to_string();
        let obs = observer.name();
        name.append(obs.as_str());
        NewHashFeedback {
            name,
            capacity,
            metadata: NewHashFeedbackMetadata::new(),
            phantom: PhantomData,
        }
    }

}

impl<O> NewHashFeedback<O> {
    /// Records a hash reported for a run; interesting when there is one and it is new.
    pub fn record_hash(&mut self, hash: Option<u64>) -> (r: Result<bool, Error>)
        ensures
            r == Ok::<bool, Error>(match hash {
                Some(h) => !old(self).spec_hashes().contains(h),
                None => false,
            }),
            final(self).spec_hashes() == match hash {
                Some(h) => old(self).spec_hashes().insert(h),
                None => old(self).spec_hashes(),
            },
            final(self).spec_name() == old(self).spec_name(),
            final(self).spec_capacity() == old(self).spec_capacity(),
    {
        match hash {
            Some(h) => self.metadata.update_hash_set(h),
            None => Ok(false),
        }
    }
}

impl<O: ObserverWithHashField + Named> NewHashFeedback<O> {
    /// Records the observer's hash; interesting when there is one and it is new.
    pub fn has_interesting_backtrace_hash_observation(&mut self, observer: &O) -> (r: Result<bool, Error>)
        ensures
            r == Ok::<bool, Error>(match observer.spec_hash() {
                Some(h) => !old(self).spec_hashes().contains(h),
                None => false,
            }),
            final(self).spec_hashes() == match observer.spec_hash() {
                Some(h) => old(self).spec_hashes().insert(h),
                None => old(self).spec_hashes(),
            },
            final(self).spec_name() == old(self).spec_name(),
            final(self).spec_capacity() == old(self).spec_capacity(),
    {
        let hash = observer.hash();
        self.record_hash(hash)
    }
}

impl<O> Named for NewHashFeedback<O> {
    closed spec fn spec_name(&self) -> Seq<char> {
        self.name@
    }

    fn name(&self) -> (r: String) {
        self.name.clone()
    }
}

impl<O: ObserverWithHashField + Named> Feedback<O> for NewHashFeedback<O> {
    open spec fn spec_evaluates(&self, observer: O, exit_kind: ExitKind) -> bool {
        true
    }

    open spec fn spec_is_interesting(&self, observer: O, exit_kind: ExitKind) -> bool {
        match observer.spec_hash() {
            Some(h) => !self.spec_hashes().contains(h),
            None => false,
        }
    }

    /// The observed hash, if any, is recorded; the name and capacity stay.
    open spec fn spec_evaluation(&self, observer: O, exit_kind: ExitKind, after: Self) -> bool {
        &&& after.spec_hashes() == match observer.spec_hash() {
            Some(h) => self.spec_hashes().insert(h),
            None => self.spec_hashes(),
        }
        &&& after.spec_name() == self.spec_name()
        &&& after.spec_capacity() == self.spec_capacity()
    }

    fn is_interesting(&mut self, observer: &O, _exit_kind: &ExitKind) -> (r: Result<bool, Error>)
        ensures
            final(self).spec_hashes() == match observer.spec_hash() {
                Some(h) => old(self).spec_hashes().insert(h),
                None => old(self).spec_hashes(),
            },
    {
        self.has_interesting_backtrace_hash_observation(observer)
    }

    /// Nothing is recorded: hashes are recorded when judged.
    open spec fn spec_append_metadata(&self, observer: O, testcase_id: TestcaseId, after: Self, r: Result<(), Error>) -> bool {
        r is Ok && after == *self
    }

    fn append_metadata(&mut self, _observer: &O, _testcase_id: &TestcaseId) -> (r: Result<(), Error>)
        ensures
            r is Ok,
            *final(self) == *old(self),
    {
        Ok(())
    }
}

} // verus!
