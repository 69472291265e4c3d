//! Schedule the access to the corpus.
use vstd::prelude::*;
use crate::corpus::TestcaseId;
use crate::error::Error;

pub mod queue;
pub mod rand;

pub use queue::QueueScheduler;
pub use rand::RandScheduler;

verus! {

/// The scheduler defines how the fuzzer requests a testcase from the corpus.
pub trait Scheduler {
    /// The ids known to the scheduler.
    spec fn spec_ids(&self) -> Seq<TestcaseId>;

    /// The id currently scheduled.
    spec fn spec_current(&self) -> Option<TestcaseId>;

    /// Whether the scheduler records the ids it is told about.
    spec fn spec_records_ids(&self) -> bool;

    /// Called when a testcase is added to the corpus.
    fn on_add(&mut self, id: TestcaseId) -> (r: Result<(), Error>)
        ensures
            r is Ok,
            final(self).spec_ids() == if old(self).spec_records_ids() {
                old(self).spec_ids().push(id)
            } else {
                old(self).spec_ids()
            },
            final(self).spec_current() == old(self).spec_current(),
            final(self).spec_records_ids() == old(self).spec_records_ids(),
    ;

    /// The id of the testcase currently scheduled.
    fn current(&self) -> (r: Option<TestcaseId>)
        ensures
            r == self.spec_current(),
    ;

    /// Gets the id of the next testcase to schedule, which becomes the
    /// current one; `None` when there is nothing to schedule, the current
    /// one then staying as it was.
    fn next(&mut self) -> (r: Result<Option<TestcaseId>, Error>)
        ensures
            old(self).spec_ids().len() == 0 ==> r == Ok::<Option<TestcaseId>, Error>(None)
                && final(self).spec_current() == old(self).spec_current(),
            old(self).spec_ids().len() > 0 ==> (r matches Ok(Some(id)) && old(self).spec_ids().contains(id)
                && final(self).spec_current() == Some(id)),
            final(self).spec_ids() == old(self).spec_ids(),
            final(self).spec_records_ids() == old(self).spec_records_ids(),
    ;

    /// All the ids tracked by this scheduler.
    fn ids(&self) -> (r: &[TestcaseId])
        ensures
            r@ == self.spec_ids(),
    ;
}

/// A scheduler that schedules nothing.
#[derive(Debug, Clone, Copy)]
pub struct NopScheduler;

impl Scheduler for NopScheduler {
    open spec fn spec_ids(&self) -> Seq<TestcaseId> {
        Seq::empty()
    }

    open spec fn spec_current(&self) -> Option<TestcaseId> {
        None
    }

    open spec fn spec_records_ids(&self) -> bool {
        false
    }

    fn on_add(&mut self, _id: TestcaseId) -> (r: Result<(), Error>) {
        Ok(())
    }

    fn current(&self) -> (r: Option<TestcaseId>) {
        None
    }

    fn next(&mut self) -> (r: Result<Option<TestcaseId>, Error>) {
        Ok(None)
    }

    fn ids(&self) -> (r: &[TestcaseId]) {
        &[]
    }
}

} // verus!
