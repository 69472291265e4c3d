//! A set of 64-bit integers kept in a hash set of the `hashbrown` crate.
use vstd::prelude::*;

verus! {

/// A set of 64-bit integers (`hashbrown::HashSet<u64>`).
#[verifier::external_body]
#[derive(Debug)]
pub struct U64Set {
    set: hashbrown::HashSet<u64>,
}

/// The integers a [`U64Set`] holds.
pub uninterp spec fn u64_set_contents(s: U64Set) -> Set<u64>;

/// An empty set (`hashbrown::HashSet::new`).
#[verifier::external_body]
pub(crate) fn u64_set_new() -> (r: U64Set)
    ensures
        u64_set_contents(r) == Set::<u64>::empty(),
{
    U64Set { set: hashbrown::HashSet::new() }
}

/// An empty set with room for `capacity` integers (`hashbrown::HashSet::with_capacity`).
#[verifier::external_body]
pub(crate) fn u64_set_with_capacity(capacity: usize) -> (r: U64Set)
    ensures
        u64_set_contents(r) == Set::<u64>::empty(),
{
    U64Set { set: hashbrown::HashSet::with_capacity(capacity) }
}

/// Adds an integer (`hashbrown::HashSet::insert`); `true` when it was not there yet.
#[verifier::external_body]
pub(crate) fn u64_set_insert(s: &mut U64Set, value: u64) -> (r: bool)
    ensures
        r == !u64_set_contents(*old(s)).contains(value),
        u64_set_contents(*final(s)) == u64_set_contents(*old(s)).insert(value),
{
    s.set.insert(value)
}

/// Whether the set holds `value` (`hashbrown::HashSet::contains`).
#[verifier::external_body]
pub(crate) fn u64_set_contains(s: &U64Set, value: u64) -> (r: bool)
    ensures
        r == u64_set_contents(*s).contains(value),
{
    s.set.contains(&value)
}

/// Removes every integer (`hashbrown::HashSet::clear`).
#[verifier::external_body]
pub(crate) fn u64_set_clear(s: &mut U64Set)
    ensures
        u64_set_contents(*final(s)) == Set::<u64>::empty(),
{
    s.set.clear()
}

/// Whether the set is empty (`hashbrown::HashSet::is_empty`).
#[verifier::external_body]
pub(crate) fn u64_set_is_empty(s: &U64Set) -> (r: bool)
    ensures
        r == (u64_set_contents(*s) == Set::<u64>::empty()),
{
    s.set.is_empty()
}

/// The integers of the set, each once, in the order the set walks them
/// (`hashbrown::HashSet::iter`); that order is left open.
#[verifier::external_body]
pub(crate) fn u64_set_to_vec(s: &U64Set) -> (r: Vec<u64>)
    ensures
        r@.to_set() == u64_set_contents(*s),
        r@.no_duplicates(),
{
    s.set.iter().copied().collect()
}

impl U64Set {
    /// The integers held.
    pub open spec fn spec_contents(&self) -> Set<u64> {
        u64_set_contents(*self)
    }

    /// An empty set.
    pub fn new() -> (r: Self)
        ensures
            r.spec_contents() == Set::<u64>::empty(),
    {
        u64_set_new()
    }

    /// An empty set with room for `capacity` integers.
    pub fn with_capacity(capacity: usize) -> (r: Self)
        ensures
            r.spec_contents() == Set::<u64>::empty(),
    {
        u64_set_with_capacity(capacity)
    }

    /// Adds an integer; `true` when it was not there yet.
    pub fn insert(&mut self, value: u64) -> (r: bool)
        ensures
            r == !old(self).spec_contents().contains(value),
            final(self).spec_contents() == old(self).spec_contents().insert(value),
    {
        u64_set_insert(self, value)
    }

    /// Whether the set holds `value`.
    pub fn contains(&self, value: u64) -> (r: bool)
        ensures
            r == self.spec_contents().contains(value),
    {
        u64_set_contains(self, value)
    }

    /// Removes every integer.
    pub fn clear(&mut self)
        ensures
            final(self).spec_contents() == Set::<u64>::empty(),
    {
        u64_set_clear(self)
    }

    /// Whether the set is empty.
    pub fn is_empty(&self) -> (r: bool)
        ensures
            r == (self.spec_contents() == Set::<u64>::empty()),
    {
        u64_set_is_empty(self)
    }

    /// The integers, each once, in an order left open.
    pub fn to_vec(&self) -> (r: Vec<u64>)
        ensures
            r@.to_set() == self.spec_contents(),
            r@.no_duplicates(),
    {
        u64_set_to_vec(self)
    }
}

} // verus!
