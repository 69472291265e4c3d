//! A map observer owning a map of bytes.
use vstd::prelude::*;
use crate::common::Named;
use crate::error::Error;
use crate::executors::ExitKind;
use crate::observers::Observer;
use super::{count_set, count_set_at, filled, lemma_count_set_take, MapObserver};

verus! {

/// The map observer retrieves the state of a map that gets updated by the
/// target, such as an AFL-style coverage map.
#[derive(Clone, Debug)]
pub struct VariableMapObserver {
    map: Vec<u8>,
    initial: u8,
    name: String,
}

impl VariableMapObserver {
    /// Creates a new map observer owning `map`, with `0` as initial value.
    pub fn owned(name: String, map: Vec<u8>) -> (r: Self)
        ensures
            r.spec_map() == map@,
            r.spec_initial() == 0,
            r.spec_name() == name@,
    {
        VariableMapObserver { map, initial: 0, name }
    }

    /// Creates a new map observer owning `map`, with the given initial value.
    pub fn with_initial(name: String, map: Vec<u8>, initial: u8) -> (r: Self)
        ensures
            r.spec_map() == map@,
            r.spec_initial() == initial,
            r.spec_name() == name@,
    {
        VariableMapObserver { map, initial, name }
    }

    /// Sets the initial value for this map.
    pub fn set_initial(&mut self, initial: u8)
        ensures
            final(self).spec_initial() == initial,
            final(self).spec_map() == old(self).spec_map(),
            final(self).spec_name() == old(self).spec_name(),
    {
        self.initial = initial;
    }

    /// Gets the backing map.
    pub fn map(&self) -> (r: &Vec<u8>)
        ensures
            r@ == self.spec_map(),
    {
        &self.map
    }

    /// Shortens the map to `new_len` entries, if it is longer.
    pub fn truncate(&mut self, new_len: usize)
        ensures
            final(self).spec_map() == if new_len < old(self).spec_map().len() {
                old(self).spec_map().take(new_len as int)
            } else {
                old(self).spec_map()
            },
            final(self).spec_initial() == old(self).spec_initial(),
            final(self).spec_name() == old(self).spec_name(),
    {
        self.map.truncate(new_len);
    }
}

impl MapObserver for VariableMapObserver {
    closed spec fn spec_map(&self) -> Seq<u8> {
        self.map@
    }

    closed spec fn spec_initial(&self) -> u8 {
        self.initial
    }

    fn len(&self) -> (r: usize) {
        self.map.len()
    }

    fn get(&self, idx: usize) -> (r: u8) {
        self.map[idx]
    }

    fn set(&mut self, idx: usize, val: u8) {
        self.map.set(idx, val);
    }

    fn usable_count(&self) -> (r: usize) {
        self.map.len()
    }

    fn count_bytes(&self) -> (r: u64) {
        let initial = self.initial;
        let cnt = self.map.len();
        let mut res: u64 = 0;
        let mut i: usize = 0;
        while i < cnt
            invariant
                cnt == self.map@.len(),
                initial == self.initial,
                0 <= i <= cnt,
                res == count_set(self.map@.take(i as int), initial),
                res <= i,
            decreases cnt - i,
        {
            proof {
                lemma_count_set_take(self.map@, initial, i as int);
            }
            if self.map[i] != initial {
                res = res + 1;
            }
            i = i + 1;
        }
        assert(self.map@.take(cnt as int) =~= self.map@);
        res
    }

    fn initial(&self) -> (r: u8) {
        self.initial
    }

    fn reset_map(&mut self) -> (r: Result<(), Error>) {
        let initial = self.initial;
        let cnt = self.map.len();
        let mut i: usize = 0;
        while i < cnt
            invariant
                cnt == self.map@.len(),
                cnt == old(self).map@.len(),
                initial == self.initial,
                self.initial == old(self).initial,
                self.name == old(self).name,
                0 <= i <= cnt,
                forall|j: int| 0 <= j < i ==> #[trigger] self.map@[j] == initial,
            decreases cnt - i,
        {
            self.map.set(i, initial);
            i = i + 1;
        }
        assert(self.map@ =~= filled(cnt as nat, initial));
        Ok(())
    }

    fn to_vec(&self) -> (r: Vec<u8>) {
        self.map.clone()
    }

    fn how_many_set(&self, indexes: &Vec<usize>) -> (r: usize) {
        let initial = self.initial;
        let cnt = self.map.len();
        let mut res: usize = 0;
        let mut k: usize = 0;
        while k < indexes.len()
            invariant
                cnt == self.map@.len(),
                initial == self.initial,
                0 <= k <= indexes@.len(),
                res == count_set_at(self.map@, initial, indexes@.take(k as int)),
                res <= k,
            decreases indexes@.len() - k,
        {
            assert(indexes@.take(k + 1).drop_last() =~= indexes@.take(k as int));
            let i = indexes[k];
            if i < cnt && self.map[i] != initial {
                res = res + 1;
            }
            k = k + 1;
        }
        assert(indexes@.take(indexes@.len() as int) =~= indexes@);
        res
    }
}

impl Named for VariableMapObserver {
    closed spec fn spec_name(&self) -> Seq<char> {
        self.name@
    }

    fn name(&self) -> (r: String) {
        self.name.clone()
    }
}

impl Observer for VariableMapObserver {
    /// The map is filled with its initial value; its length, initial value
    /// and name stay.
    open spec fn spec_pre_exec(&self, after: Self, r: Result<(), Error>) -> bool {
        &&& r is Ok
        &&& after.spec_map() == filled(self.spec_map().len(), self.spec_initial())
        &&& after.spec_initial() == self.spec_initial()
        &&& after.spec_name() == self.spec_name()
    }

    /// Nothing changes.
    open spec fn spec_post_exec(&self, exit_kind: ExitKind, after: Self, r: Result<(), Error>) -> bool {
        r is Ok && after == *self
    }

    /// Resets the map before each run.
    fn pre_exec(&mut self) -> (r: Result<(), Error>)
        ensures
            r is Ok,
            final(self).spec_map() == filled(old(self).spec_map().len(), old(self).spec_initial()),
            final(self).spec_initial() == old(self).spec_initial(),
            final(self).spec_name() == old(self).spec_name(),
    {
        self.reset_map()
    }

    /// Nothing happens after a run.
    fn post_exec(&mut self, _exit_kind: &ExitKind) -> (r: Result<(), Error>)
        ensures
            r is Ok,
            *final(self) == *old(self),
    {
        Ok(())
    }
}

impl crate::observers::map::VarLenMapObserver for VariableMapObserver {
    fn map_slice(&self) -> (r: &[u8]) {
        self.map.as_slice()
    }

    fn size(&self) -> (r: usize) {
        self.map.len()
    }
}

} // verus!
