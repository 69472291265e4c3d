//! Map observers: observers of a coverage map, written by the target.
use vstd::prelude::*;
use crate::common::Named;
use crate::error::Error;

pub mod hitcount_map;
pub mod variable_map;

pub use hitcount_map::{HitcountsIterableMapObserver, HitcountsMapObserver};
pub use variable_map::VariableMapObserver;

verus! {

/// The number of entries of `map` that differ from `initial`.
pub open spec fn count_set(map: Seq<u8>, initial: u8) -> nat
    decreases map.len(),
{
    if map.len() == 0 {
        0
    } else {
        count_set(map.drop_last(), initial) + if map.last() != initial {
            1nat
        } else {
            0nat
        }
    }
}

/// The number of positions in `indexes` that lie inside `map` and point at
/// an entry that differs from `initial` (a position listed twice counts twice).
pub open spec fn count_set_at(map: Seq<u8>, initial: u8, indexes: Seq<usize>) -> nat
    decreases indexes.len(),
{
    if indexes.len() == 0 {
        0
    } else {
        let i = indexes.last();
        count_set_at(map, initial, indexes.drop_last()) + if i < map.len() && map[i as int]
            != initial {
            1nat
        } else {
            0nat
        }
    }
}

/// A map of `len` entries, all equal to `value`.
pub open spec fn filled(len: nat, value: u8) -> Seq<u8> {
    Seq::new(len, |_i: int| value)
}

/// At most every entry is set.
pub proof fn lemma_count_set_bounded(map: Seq<u8>, initial: u8)
    ensures
        count_set(map, initial) <= map.len(),
    decreases map.len(),
{
    if map.len() > 0 {
        lemma_count_set_bounded(map.drop_last(), initial);
    }
}

/// A map filled with its initial value has no set entry.
pub proof fn lemma_count_set_filled(len: nat, initial: u8)
    ensures
        count_set(filled(len, initial), initial) == 0,
    decreases len,
{
    if len > 0 {
        assert(filled(len, initial).drop_last() =~= filled((len - 1) as nat, initial));
        lemma_count_set_filled((len - 1) as nat, initial);
    }
}

/// Counting over a longer prefix adds the last entry of that prefix.
pub proof fn lemma_count_set_take(map: Seq<u8>, initial: u8, i: int)
    requires
        0 <= i < map.len(),
    ensures
        count_set(map.take(i + 1), initial) == count_set(map.take(i), initial) + if map[i]
            != initial {
            1nat
        } else {
            0nat
        },
{
    assert(map.take(i + 1).drop_last() =~= map.take(i));
}

/// Changing one entry changes the count by at most the change of that entry.
pub proof fn lemma_count_set_update(map: Seq<u8>, initial: u8, i: int, v: u8)
    requires
        0 <= i < map.len(),
    ensures
        count_set(map.update(i, v), initial) + (if map[i] != initial {
            1nat
        } else {
            0nat
        }) == count_set(map, initial) + (if v != initial {
            1nat
        } else {
            0nat
        }),
    decreases map.len(),
{
    if i == map.len() - 1 {
        assert(map.update(i, v).drop_last() =~= map.drop_last());
    } else {
        assert(map.update(i, v).drop_last() =~= map.drop_last().update(i, v));
        lemma_count_set_update(map.drop_last(), initial, i, v);
    }
}

/// An observer of a coverage map whose entries are bytes.
pub trait MapObserver: Named {
    /// The entries of the map.
    spec fn spec_map(&self) -> Seq<u8>;

    /// The value every entry takes when the map is reset.
    spec fn spec_initial(&self) -> u8;

    /// The number of entries of the map.
    fn len(&self) -> (r: usize)
        ensures
            r == self.spec_map().len(),
    ;

    /// Get the value at `idx`.
    fn get(&self, idx: usize) -> (r: u8)
        requires
            idx < self.spec_map().len(),
        ensures
            r == self.spec_map()[idx as int],
    ;

    /// Set the value at `idx`.
    fn set(&mut self, idx: usize, val: u8)
        requires
            idx < old(self).spec_map().len(),
        ensures
            final(self).spec_map() == old(self).spec_map().update(idx as int, val),
            final(self).spec_initial() == old(self).spec_initial(),
            final(self).spec_name() == old(self).spec_name(),
    ;

    /// The number of usable entries: all of them.
    fn usable_count(&self) -> (r: usize)
        ensures
            r == self.spec_map().len(),
    ;

    /// Count the entries that differ from the initial value.
    fn count_bytes(&self) -> (r: u64)
        ensures
            r == count_set(self.spec_map(), self.spec_initial()),
    ;

    /// The initial value of the entries.
    fn initial(&self) -> (r: u8)
        ensures
            r == self.spec_initial(),
    ;

    /// Reset every entry to the initial value.
    fn reset_map(&mut self) -> (r: Result<(), Error>)
        ensures
            r is Ok,
            final(self).spec_map() == filled(old(self).spec_map().len(), old(self).spec_initial()),
            final(self).spec_initial() == old(self).spec_initial(),
            final(self).spec_name() == old(self).spec_name(),
    ;

    /// The entries of the map, copied.
    fn to_vec(&self) -> (r: Vec<u8>)
        ensures
            r@ == self.spec_map(),
    ;

    /// How many of the given positions hold an entry that differs from the initial value.
    fn how_many_set(&self, indexes: &Vec<usize>) -> (r: usize)
        ensures
            r == count_set_at(self.spec_map(), self.spec_initial(), indexes@),
    ;
}

/// A map observer whose length may change from run to run: the size is
/// read each time it is used.
pub trait VarLenMapObserver: MapObserver {
    /// The entries of the map.
    fn map_slice(&self) -> (r: &[u8])
        ensures
            r@ == self.spec_map(),
    ;

    /// The number of entries in use.
    fn size(&self) -> (r: usize)
        ensures
            r == self.spec_map().len(),
    ;
}

/// A map observer whose length is always `N`.
pub trait ConstLenMapObserver<const N: usize>: MapObserver {
    /// The entries of the map.
    fn map_slice(&self) -> (r: &[u8; N])
        ensures
            r@ == self.spec_map(),
    ;
}

} // verus!
