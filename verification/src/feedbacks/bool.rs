//! The [`BoolValueFeedback`] finds a run interesting when the boolean its
//! observer holds is set.
use vstd::prelude::*;
use crate::common::Named;
use crate::corpus::TestcaseId;
use crate::error::Error;
use crate::executors::ExitKind;
use crate::feedbacks::Feedback;

verus! {

/// Interesting when the observed boolean is `true`. The feedback is handed
/// the observed value, or `None` when the observer is missing.
#[derive(Debug, Clone)]
pub struct BoolValueFeedback {
    name: String,
}

impl BoolValueFeedback {
    /// A feedback named after the observer it reads.
    pub fn new(observer_name: &str) -> (r: Self)
        ensures
            r.spec_name() == observer_name@,
    {
        Self::with_name(observer_name)
    }

    /// A feedback with the given name.
    pub fn with_name(name: &str) -> (r: Self)
        ensures
            r.spec_name() == name@,
    {
        BoolValueFeedback { name: name.to_string() }
    }
}

impl Named for BoolValueFeedback {
    closed spec fn spec_name(&self) -> Seq<char> {
        self.name@
    }

    fn name(&self) -> (r: String) {
        self.name.clone()
    }
}

impl Feedback<Option<bool>> for BoolValueFeedback {
    open spec fn spec_evaluates(&self, observed: Option<bool>, exit_kind: ExitKind) -> bool {
        observed is Some
    }

    open spec fn spec_is_interesting(&self, observed: Option<bool>, exit_kind: ExitKind) -> bool {
        observed == Some(true)
    }

    /// Nothing changes.
    open spec fn spec_evaluation(&self, observed: Option<bool>, exit_kind: ExitKind, after: Self) -> bool {
        after == *self
    }

    /// The observed value; an error when the observer is missing.
    fn is_interesting(&mut self, observed: &Option<bool>, _exit_kind: &ExitKind) -> (r: Result<bool, Error>)
        ensures
            observed is None ==> (r matches Err(Error::IllegalState(_))),
            *final(self) == *old(self),
    {
        match observed {
            Some(v) => Ok(*v),
            None => Err(Error::IllegalState("Observer not found".to_string())),
        }
    }

    /// Nothing is recorded.
    open spec fn spec_append_metadata(&self, observed: Option<bool>, testcase_id: TestcaseId, after: Self, r: Result<(), Error>) -> bool {
        r is Ok && after == *self
    }

    fn append_metadata(&mut self, _observed: &Option<bool>, _testcase_id: &TestcaseId) -> (r: Result<(), Error>)
        ensures
            r is Ok,
            *final(self) == *old(self),
    {
        Ok(())
    }
}

} // verus!
