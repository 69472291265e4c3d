//! An observer of a list of values that the target fills during a run.
use vstd::prelude::*;
use crate::common::Named;
use crate::error::Error;
use crate::executors::ExitKind;
use crate::observers::Observer;

verus! {

/// A simple observer with a list of things.
#[derive(Debug)]
pub struct ListObserver<T> {
    name: String,
    list: Vec<T>,
}

impl<T> ListObserver<T> {
    /// The list.
    pub closed spec fn spec_list(&self) -> Seq<T> {
        self.list@
    }

    /// An observer named `name` of `list`.
    pub fn new(name: &str, list: Vec<T>) -> (r: Self)
        ensures
            r.spec_name() == name@,
            r.spec_list() == list@,
    {
        ListObserver { name: name.to_string(), list }
    }

    /// The list.
    pub fn list(&self) -> (r: &Vec<T>)
        ensures
            r@ == self.spec_list(),
    {
        &self.list
    }

    /// Replaces the list.
    pub fn set_list(&mut self, list: Vec<T>)
        ensures
            final(self).spec_list() == list@,
            final(self).spec_name() == old(self).spec_name(),
    {
        self.list = list;
    }
}

impl<T> Named for ListObserver<T> {
    closed spec fn spec_name(&self) -> Seq<char> {
        self.name@
    }

    fn name(&self) -> (r: String) {
        self.name.clone()
    }
}

impl<T> Observer for ListObserver<T> {
    /// The list is emptied; the name stays.
    open spec fn spec_pre_exec(&self, after: Self, r: Result<(), Error>) -> bool {
        &&& r is Ok
        &&& after.spec_list() == Seq::<T>::empty()
        &&& after.spec_name() == self.spec_name()
    }

    /// Nothing changes.
    open spec fn spec_post_exec(&self, exit_kind: ExitKind, after: Self, r: Result<(), Error>) -> bool {
        r is Ok && after == *self
    }

    /// Empties the list before the run.
    fn pre_exec(&mut self) -> (r: Result<(), Error>)
        ensures
            r is Ok,
            final(self).spec_list() == Seq::<T>::empty(),
            final(self).spec_name() == old(self).spec_name(),
    {
        self.list.clear();
        Ok(())
    }

    fn post_exec(&mut self, _exit_kind: &ExitKind) -> (r: Result<(), Error>)
        ensures
            r is Ok,
            *final(self) == *old(self),
    {
        Ok(())
    }
}

} // verus!
