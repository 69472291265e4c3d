//! An observer of how long a run of the target takes.
use core::time::Duration;
use std::time::Instant;
use vstd::prelude::*;
use crate::common::Named;
use crate::error::Error;
use crate::executors::ExitKind;
use crate::observers::Observer;

verus! {

/// A point in time of the monotonic clock (`std::time::Instant`).
#[verifier::external_type_specification]
#[verifier::external_body]
pub struct ExInstant(Instant);

/// A copy of a point in time (`Instant` is `Copy`, its clone is the same point).
pub assume_specification[ <Instant as Clone>::clone ](i: &Instant) -> (r: Instant)
    ensures
        r == *i,
;

/// The current time of the monotonic clock (`Instant::now`); nothing is
/// promised of it, it changes from call to call.
#[verifier::external_body]
pub(crate) fn instant_now() -> (r: Instant) {
    Instant::now()
}

/// The time since `start` (`Instant::elapsed`); nothing is promised of it,
/// it depends on the clock.
#[verifier::external_body]
fn instant_elapsed(start: &Instant) -> (r: Duration) {
    start.elapsed()
}

/// A simple observer, just overlooking the runtime of the target.
#[derive(Debug, Clone)]
pub struct TimeObserver {
    name: String,
    start_time: Instant,
    last_runtime: Option<Duration>,
}

impl TimeObserver {
    /// The runtime of the last run, once it finished.
    pub closed spec fn spec_last_runtime(&self) -> Option<Duration> {
        self.last_runtime
    }

    /// An observer named `name`, before any run.
    pub fn new(name: &str) -> (r: Self)
        ensures
            r.spec_name() == name@,
            r.spec_last_runtime() is None,
    {
        TimeObserver { name: name.to_string(), start_time: instant_now(), last_runtime: None }
    }

    /// The runtime of the last run of the target.
    pub fn last_runtime(&self) -> (r: &Option<Duration>)
        ensures
            *r == self.spec_last_runtime(),
    {
        &self.last_runtime
    }
}

impl Named for TimeObserver {
    closed spec fn spec_name(&self) -> Seq<char> {
        self.name@
    }

    fn name(&self) -> (r: String) {
        self.name.clone()
    }
}

impl Observer for TimeObserver {
    /// The runtime is forgotten; the name stays.
    open spec fn spec_pre_exec(&self, after: Self, r: Result<(), Error>) -> bool {
        &&& r is Ok
        &&& after.spec_last_runtime() is None
        &&& after.spec_name() == self.spec_name()
    }

    /// A runtime is known, whichever the clock gives; the name stays.
    open spec fn spec_post_exec(&self, exit_kind: ExitKind, after: Self, r: Result<(), Error>) -> bool {
        &&& r is Ok
        &&& after.spec_last_runtime() is Some
        &&& after.spec_name() == self.spec_name()
    }

    /// Starts the clock; the runtime is unknown until the run finishes.
    fn pre_exec(&mut self) -> (r: Result<(), Error>)
        ensures
            r is Ok,
            final(self).spec_last_runtime() is None,
            final(self).spec_name() == old(self).spec_name(),
    {
        self.last_runtime = None;
        self.start_time = instant_now();
        Ok(())
    }

    /// Stops the clock: the runtime is the time since the run started.
    fn post_exec(&mut self, _exit_kind: &ExitKind) -> (r: Result<(), Error>)
        ensures
            r is Ok,
            final(self).spec_last_runtime() is Some,
            final(self).spec_name() == old(self).spec_name(),
    {
        self.last_runtime = Some(instant_elapsed(&self.start_time));
        Ok(())
    }
}

} // verus!
