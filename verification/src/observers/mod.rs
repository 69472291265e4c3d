//! Observers give insights about runs of a target, such as coverage and timing.
use vstd::prelude::*;
use crate::common::Named;
use crate::error::Error;
use crate::executors::ExitKind;

pub mod cmplog;
pub mod list;
pub mod map;
pub mod time;

pub use cmplog::{CmpLogMetadata, CmpValues, CmplogBytes};
pub use list::ListObserver;
pub use time::TimeObserver;
pub use map::{
    HitcountsIterableMapObserver, HitcountsMapObserver, MapObserver, VariableMapObserver,
};

verus! {

/// Observers observe different information about the target.
/// They can then be used by feedbacks.
pub trait Observer: Named + Sized {
    /// Whether the hook run before an execution can take the observer from
    /// `self` to `after`, ending in `r`.
    spec fn spec_pre_exec(&self, after: Self, r: Result<(), Error>) -> bool;

    /// Whether the hook run after an execution that ended as `exit_kind` can
    /// take the observer from `self` to `after`, ending in `r`.
    spec fn spec_post_exec(&self, exit_kind: ExitKind, after: Self, r: Result<(), Error>) -> bool;

    /// Called right before execution starts.
    fn pre_exec(&mut self) -> (r: Result<(), Error>)
        ensures
            old(self).spec_pre_exec(*final(self), r),
    ;

    /// Called right after execution finishes.
    fn post_exec(&mut self, exit_kind: &ExitKind) -> (r: Result<(), Error>)
        ensures
            old(self).spec_post_exec(*exit_kind, *final(self), r),
    ;
}

/// An observer with a hash field, such as the hash of a backtrace.
pub trait ObserverWithHashField {
    /// The hash, if the last run produced one.
    spec fn spec_hash(&self) -> Option<u64>;

    /// The hash, if the last run produced one.
    fn hash(&self) -> (r: Option<u64>)
        ensures
            r == self.spec_hash(),
    ;
}

/// A tuple of observers.
pub trait ObserversTuple: Sized {
    /// Whether running the hooks of all the observers before an execution
    /// can take the tuple from `self` to `after`, ending in `r`.
    spec fn spec_pre_exec_all(&self, after: Self, r: Result<(), Error>) -> bool;

    /// Whether running the hooks of all the observers after an execution
    /// that ended as `exit_kind` can take the tuple from `self` to `after`,
    /// ending in `r`.
    spec fn spec_post_exec_all(&self, exit_kind: ExitKind, after: Self, r: Result<(), Error>) -> bool;

    /// This is called right before the next execution.
    fn pre_exec_all(&mut self) -> (r: Result<(), Error>)
        ensures
            old(self).spec_pre_exec_all(*final(self), r),
    ;

    /// This is called right after the last execution.
    fn post_exec_all(&mut self, exit_kind: &ExitKind) -> (r: Result<(), Error>)
        ensures
            old(self).spec_post_exec_all(*exit_kind, *final(self), r),
    ;
}

impl ObserversTuple for () {
    open spec fn spec_pre_exec_all(&self, after: Self, r: Result<(), Error>) -> bool {
        r is Ok
    }

    open spec fn spec_post_exec_all(&self, exit_kind: ExitKind, after: Self, r: Result<(), Error>) -> bool {
        r is Ok
    }

    fn pre_exec_all(&mut self) -> (r: Result<(), Error>) {
        Ok(())
    }

    fn post_exec_all(&mut self, _exit_kind: &ExitKind) -> (r: Result<(), Error>) {
        Ok(())
    }
}

/// The head's hook runs first: when it fails, its error is the result and
/// the tail is left as it was; otherwise the tail's hooks run.
impl<Head, Tail> ObserversTuple for (Head, Tail) where Head: Observer, Tail: ObserversTuple {
    open spec fn spec_pre_exec_all(&self, after: Self, r: Result<(), Error>) -> bool {
        ||| (r is Err && self.0.spec_pre_exec(after.0, r) && after.1 == self.1)
        ||| exists|head: Result<(), Error>|
            head is Ok && #[trigger] self.0.spec_pre_exec(after.0, head)
                && self.1.spec_pre_exec_all(after.1, r)
    }

    open spec fn spec_post_exec_all(&self, exit_kind: ExitKind, after: Self, r: Result<(), Error>) -> bool {
        ||| (r is Err && self.0.spec_post_exec(exit_kind, after.0, r) && after.1 == self.1)
        ||| exists|head: Result<(), Error>|
            head is Ok && #[trigger] self.0.spec_post_exec(exit_kind, after.0, head)
                && self.1.spec_post_exec_all(exit_kind, after.1, r)
    }

    fn pre_exec_all(&mut self) -> (r: Result<(), Error>) {
        let head = self.0.pre_exec();
        match head {
            Ok(_) => {
                let r = self.1.pre_exec_all();
                assert(old(self).0.spec_pre_exec(self.0, head));
                r
            },
            Err(e) => Err(e),
        }
    }

    fn post_exec_all(&mut self, exit_kind: &ExitKind) -> (r: Result<(), Error>) {
        let head = self.0.post_exec(exit_kind);
        match head {
            Ok(_) => {
                let r = self.1.post_exec_all(exit_kind);
                assert(old(self).0.spec_post_exec(*exit_kind, self.0, head));
                r
            },
            Err(e) => Err(e),
        }
    }
}

} // verus!
