//! The [`ListFeedback`] finds a run interesting when its list observer holds
//! a value never recorded before.
use vstd::prelude::*;
use crate::collections::U64Set;
use crate::common::Named;
use crate::corpus::TestcaseId;
use crate::error::Error;
use crate::executors::ExitKind;
use crate::feedbacks::Feedback;
use crate::observers::list::ListObserver;

verus! {

/// The values recorded so far, and how many testcases refer to them.
#[derive(Debug)]
pub struct ListFeedbackMetadata {
    /// The values recorded.
    pub set: U64Set,
    /// How many testcases refer to this metadata.
    pub tcref: isize,
}

impl ListFeedbackMetadata {
    /// Nothing recorded.
    pub fn new() -> (r: Self)
        ensures
            r.set.spec_contents() == Set::<u64>::empty(),
            r.tcref == 0,
    {
        ListFeedbackMetadata { set: U64Set::new(), tcref: 0 }
    }

    /// Forgets every value.
    pub fn reset(&mut self) -> (r: Result<(), Error>)
        ensures
            r is Ok,
            final(self).set.spec_contents() == Set::<u64>::empty(),
            final(self).tcref == old(self).tcref,
    {
        self.set.clear();
        Ok(())
    }

    /// How many testcases refer to this metadata.
    pub fn refcnt(&self) -> (r: isize)
        ensures
            r == self.tcref,
    {
        self.tcref
    }
}

impl Default for ListFeedbackMetadata {
    fn default() -> (r: Self)
        ensures
            r.set.spec_contents() == Set::<u64>::empty(),
            r.tcref == 0,
    {
        Self::new()
    }
}

/// The values of `list` that `history` does not hold.
pub open spec fn spec_novelties(list: Seq<u64>, history: Set<u64>) -> Set<u64> {
    list.to_set().filter(|v: u64| !history.contains(v))
}

/// Finds a run interesting when its list holds a value not recorded yet.
#[derive(Debug)]
pub struct ListFeedback {
    name: String,
    novelty: U64Set,
    metadata: ListFeedbackMetadata,
}

impl ListFeedback {
    /// The values recorded.
    pub closed spec fn spec_history(&self) -> Set<u64> {
        self.metadata.set.spec_contents()
    }

    /// The new values of the last run.
    pub closed spec fn spec_novelty(&self) -> Set<u64> {
        self.novelty.spec_contents()
    }

    /// A feedback on the list of `observer`, named after it.
    pub fn new(observer: &ListObserver<u64>) -> (r: Self)
        ensures
            r.spec_name() == observer.spec_name(),
            r.spec_history() == Set::<u64>::empty(),
            r.spec_novelty() == Set::<u64>::empty(),
    {
        ListFeedback {
            name: observer.name(),
            novelty: U64Set::new(),
            metadata: ListFeedbackMetadata::new(),
        }
    }

    /// The values recorded.
    pub fn metadata(&self) -> (r: &ListFeedbackMetadata)
        ensures
            r.set.spec_contents() == self.spec_history(),
    {
        &self.metadata
    }

    /// The new values of the last run.
    pub fn novelty(&self) -> (r: &U64Set)
        ensures
            r.spec_contents() == self.spec_novelty(),
    {
        &self.novelty
    }

    /// Collects the values of the observer's list that are not recorded yet;
    /// interesting when there is one.
    pub fn has_interesting_list_observer_feedback(&mut self, observer: &ListObserver<u64>) -> (r: bool)
        ensures
            final(self).spec_novelty() == spec_novelties(observer.spec_list(), old(self).spec_history()),
            r == (final(self).spec_novelty() != Set::<u64>::empty()),
            final(self).spec_history() == old(self).spec_history(),
            final(self).spec_name() == old(self).spec_name(),
    {
        self.novelty.clear();
        let list = observer.list();
        let mut i: usize = 0;
        while i < list.len()
            invariant
                0 <= i <= list@.len(),
                self.spec_history() == old(self).spec_history(),
                self.spec_name() == old(self).spec_name(),
                self.spec_novelty() == spec_novelties(list@.take(i as int), self.spec_history()),
            decreases list@.len() - i,
        {
            let v = list[i];
            let ghost before = self.spec_novelty();
            if !self.metadata.set.contains(v) {
                self.novelty.insert(v);
            }
            proof {
                assert(list@.take(i + 1) =~= list@.take(i as int).push(v));
                list@.take(i as int).lemma_push_to_set_commute(v);
                assert(self.spec_novelty() =~= spec_novelties(list@.take(i + 1), self.spec_history()));
            }
            i = i + 1;
        }
        assert(list@.take(list@.len() as int) =~= list@);
        !self.novelty.is_empty()
    }

    /// Records the new values of the last run.
    pub fn append_list_observer_metadata(&mut self)
        ensures
            final(self).spec_history() == old(self).spec_history().union(old(self).spec_novelty()),
            final(self).spec_novelty() == old(self).spec_novelty(),
            final(self).spec_name() == old(self).spec_name(),
    {
        let values = self.novelty.to_vec();
        let mut i: usize = 0;
        while i < values.len()
            invariant
                0 <= i <= values@.len(),
                values@.to_set() == old(self).spec_novelty(),
                self.spec_novelty() == old(self).spec_novelty(),
                self.spec_name() == old(self).spec_name(),
                self.spec_history() == old(self).spec_history().union(values@.take(i as int).to_set()),
            decreases values@.len() - i,
        {
            let v = values[i];
            self.metadata.set.insert(v);
            proof {
                assert(values@.take(i + 1) =~= values@.take(i as int).push(v));
                values@.take(i as int).lemma_push_to_set_commute(v);
                assert(self.spec_history() =~= old(self).spec_history().union(
                    values@.take(i + 1).to_set(),
                ));
            }
            i = i + 1;
        }
        assert(values@.take(values@.len() as int) =~= values@);
    }
}

impl Named for ListFeedback {
    closed spec fn spec_name(&self) -> Seq<char> {
        self.name@
    }

    fn name(&self) -> (r: String) {
        self.name.clone()
    }
}

impl Feedback<ListObserver<u64>> for ListFeedback {
    open spec fn spec_evaluates(&self, observer: ListObserver<u64>, exit_kind: ExitKind) -> bool {
        true
    }

    open spec fn spec_is_interesting(&self, observer: ListObserver<u64>, exit_kind: ExitKind) -> bool {
        spec_novelties(observer.spec_list(), self.spec_history()) != Set::<u64>::empty()
    }

    /// The new values are those of the observed list not recorded yet; the
    /// recorded values and the name stay.
    open spec fn spec_evaluation(&self, observer: ListObserver<u64>, exit_kind: ExitKind, after: Self) -> bool {
        &&& after.spec_novelty() == spec_novelties(observer.spec_list(), self.spec_history())
        &&& after.spec_history() == self.spec_history()
        &&& after.spec_name() == self.spec_name()
    }

    fn is_interesting(&mut self, observer: &ListObserver<u64>, _exit_kind: &ExitKind) -> (r: Result<bool, Error>)
        ensures
            final(self).spec_novelty() == spec_novelties(observer.spec_list(), old(self).spec_history()),
            final(self).spec_history() == old(self).spec_history(),
    {
        Ok(self.has_interesting_list_observer_feedback(observer))
    }

    /// The new values of the last run join the recorded ones; the new values
    /// and the name stay.
    open spec fn spec_append_metadata(&self, observer: ListObserver<u64>, testcase_id: TestcaseId, after: Self, r: Result<(), Error>) -> bool {
        &&& r is Ok
        &&& after.spec_history() == self.spec_history().union(self.spec_novelty())
        &&& after.spec_novelty() == self.spec_novelty()
        &&& after.spec_name() == self.spec_name()
    }

    fn append_metadata(&mut self, _observer: &ListObserver<u64>, _testcase_id: &TestcaseId) -> (r: Result<(), Error>)
        ensures
            r is Ok,
            final(self).spec_history() == old(self).spec_history().union(old(self).spec_novelty()),
    {
        self.append_list_observer_metadata();
        Ok(())
    }
}

/// After a run's new values are recorded, the same list is no longer interesting.
pub proof fn lemma_recorded_list_not_novel(list: Seq<u64>, history: Set<u64>)
    ensures
        spec_novelties(list, history.union(spec_novelties(list, history))) == Set::<u64>::empty(),
{
    assert(spec_novelties(list, history.union(spec_novelties(list, history))) =~= Set::<u64>::empty());
}

} // verus!
