//! A scheduler feeding the fuzzer with a random testcase on request.
use vstd::prelude::*;
use crate::corpus::TestcaseId;
use crate::error::Error;
use crate::rands::Rand;
use super::Scheduler;

verus! {

/// Feeds the fuzzer simply with a random testcase on request.
#[derive(Debug, Clone)]
pub struct RandScheduler<R> {
    rand: R,
    current: Option<TestcaseId>,
    ids: Vec<TestcaseId>,
}

impl<R: Rand> RandScheduler<R> {
    /// The source of random choices.
    pub closed spec fn spec_rand(&self) -> R {
        self.rand
    }

    /// Creates a new scheduler that picks testcases at random using `rand`.
    pub fn new(rand: R) -> (r: Self)
        ensures
            r.spec_ids() == Seq::<TestcaseId>::empty(),
            r.spec_current() is None,
            r.spec_rand() == rand,
    {
        RandScheduler { rand, current: None, ids: Vec::new() }
    }
}

impl<R: Rand> Scheduler for RandScheduler<R> {
    closed spec fn spec_ids(&self) -> Seq<TestcaseId> {
        self.ids@
    }

    closed spec fn spec_current(&self) -> Option<TestcaseId> {
        self.current
    }

    open spec fn spec_records_ids(&self) -> bool {
        true
    }

    fn on_add(&mut self, id: TestcaseId) -> (r: Result<(), Error>)
        ensures
            final(self).spec_rand() == old(self).spec_rand(),
    {
        self.ids.push(id);
        Ok(())
    }

    fn current(&self) -> (r: Option<TestcaseId>) {
        self.current
    }

    /// Gets an entry chosen at random among the known ids: the one at the
    /// position the generator gives below their number.
    fn next(&mut self) -> (r: Result<Option<TestcaseId>, Error>)
        ensures
            ({
                let n = old(self).spec_ids().len() as usize;
                &&& n == 0 ==> final(self).spec_rand() == old(self).spec_rand()
                &&& n > 0 ==> r == Ok::<Option<TestcaseId>, Error>(
                    Some(old(self).spec_ids()[old(self).spec_rand().spec_below(n) as int]),
                ) && final(self).spec_rand() == old(self).spec_rand().spec_after_below(n)
            }),
    {
        if self.ids.len() == 0 {
            Ok(None)
        } else {
            let idx = self.rand.below(self.ids.len());
            let id = self.ids[idx];
            self.current = Some(id);
            Ok(Some(id))
        }
    }

    fn ids(&self) -> (r: &[TestcaseId]) {
        self.ids.as_slice()
    }
}

} // verus!
