//! Map feedback: a run is interesting when it reaches a novelty in a coverage map.
use core::marker::PhantomData;
use vstd::prelude::*;
use crate::common::{decimal_string_u64, spec_digits, Named};
use crate::corpus::TestcaseId;
use crate::error::Error;
use crate::executors::ExitKind;
use crate::feedbacks::{Feedback, IsNovel, Reducer};
use crate::observers::map::{count_set, filled, lemma_count_set_update, MapObserver};

verus! {

/// A list of indexes of a map, attached to a testcase.
#[derive(Debug)]
pub struct MapIndexes {
    /// The actual list.
    pub list: Vec<usize>,
    /// A refcount used to know when this metadata can be removed.
    pub tcref: isize,
}

impl MapIndexes {
    /// Creates a new [`MapIndexes`] with a refcount of zero.
    pub fn new(list: Vec<usize>) -> (r: Self)
        ensures
            r.list == list,
            r.tcref == 0,
    {
        MapIndexes { list, tcref: 0 }
    }

    /// The refcount.
    pub fn refcnt(&self) -> (r: isize)
        ensures
            r == self.tcref,
    {
        self.tcref
    }
}

/// A list of the novelties a testcase brought.
#[derive(Debug)]
pub struct MapNoveltiesMetadata {
    /// A `list` of novelties.
    pub list: Vec<usize>,
}

impl MapNoveltiesMetadata {
    /// Creates a new [`MapNoveltiesMetadata`].
    pub fn new(list: Vec<usize>) -> (r: Self)
        ensures
            r.list == list,
    {
        MapNoveltiesMetadata { list }
    }
}

/// The history of a map feedback.
#[derive(Debug, Clone)]
pub struct MapFeedbackMetadata {
    /// The reduction of all the maps seen so far, entry by entry.
    pub history_map: Vec<u8>,
    /// How many entries of `history_map` hold a non-initial value.
    pub num_covered_map_indexes: usize,
}

/// The history, grown to at least `len` entries, new entries taking `fill`.
pub open spec fn resized(history: Seq<u8>, len: nat, fill: u8) -> Seq<u8> {
    if history.len() < len {
        history + filled((len - history.len()) as nat, fill)
    } else {
        history
    }
}

/// The history entry after folding in the map entry `v`: entries equal to
/// the initial value leave the history as it is.
pub open spec fn folded_entry<R: Reducer<u8>>(h: u8, v: u8, initial: u8) -> u8 {
    if v != initial {
        R::spec_reduce(h, v)
    } else {
        h
    }
}

/// The history after folding in `map`, on a history at least as long as the map.
pub open spec fn folded<R: Reducer<u8>>(history: Seq<u8>, map: Seq<u8>, initial: u8) -> Seq<u8> {
    Seq::new(
        history.len(),
        |i: int|
            if i < map.len() {
                folded_entry::<R>(history[i], map[i], initial)
            } else {
                history[i]
            },
    )
}

/// Whether some entry of `map` that differs from `initial` brings a novelty
/// over the history, once reduced into it.
pub open spec fn map_is_novel<N: IsNovel<u8>, R: Reducer<u8>>(
    history: Seq<u8>,
    map: Seq<u8>,
    initial: u8,
) -> bool {
    exists|i: int|
        0 <= i < map.len() && map[i] != initial && #[trigger] N::spec_is_novel(
            history[i],
            R::spec_reduce(history[i], map[i]),
        )
}

/// Among the first `n` entries, how many were at `initial` in `before` and
/// are not in `after`: the entries that became covered.
pub open spec fn count_became_set(before: Seq<u8>, after: Seq<u8>, initial: u8, n: nat) -> nat
    decreases n,
{
    if n == 0 {
        0
    } else {
        count_became_set(before, after, initial, (n - 1) as nat) + if before[n - 1] == initial
            && after[n - 1] != initial {
            1nat
        } else {
            0nat
        }
    }
}

/// Entries at or after `n` do not matter to the count of the first `n`.
pub proof fn lemma_became_set_frame(before: Seq<u8>, after: Seq<u8>, initial: u8, n: nat, j: int, v: u8)
    requires
        n <= j < after.len(),
    ensures
        count_became_set(before, after.update(j, v), initial, n) == count_became_set(
            before,
            after,
            initial,
            n,
        ),
    decreases n,
{
    if n > 0 {
        lemma_became_set_frame(before, after, initial, (n - 1) as nat, j, v);
    }
}

/// At most `n` entries became covered among the first `n`.
pub proof fn lemma_became_set_bounded(before: Seq<u8>, after: Seq<u8>, initial: u8, n: nat)
    ensures
        count_became_set(before, after, initial, n) <= n,
    decreases n,
{
    if n > 0 {
        lemma_became_set_bounded(before, after, initial, (n - 1) as nat);
    }
}

/// Entries equal in both maps add nothing to the count.
pub proof fn lemma_became_set_tail(before: Seq<u8>, after: Seq<u8>, initial: u8, m: nat, n: nat)
    requires
        m <= n,
        forall|j: int| m <= j < n ==> after[j] == before[j],
    ensures
        count_became_set(before, after, initial, n) == count_became_set(before, after, initial, m),
    decreases n,
{
    if n > m {
        lemma_became_set_tail(before, after, initial, m, (n - 1) as nat);
    }
}

/// When no covered entry goes back to `initial`, the covered entries after
/// are the covered entries before plus those that became covered.
pub proof fn lemma_count_set_grows(before: Seq<u8>, after: Seq<u8>, initial: u8, n: nat)
    requires
        n <= before.len(),
        before.len() == after.len(),
        forall|j: int| 0 <= j < before.len() && before[j] != initial ==> after[j] != initial,
    ensures
        count_set(after.take(n as int), initial) == count_set(before.take(n as int), initial)
            + count_became_set(before, after, initial, n),
    decreases n,
{
    if n > 0 {
        lemma_count_set_grows(before, after, initial, (n - 1) as nat);
        assert(after.take(n as int).drop_last() =~= after.take(n - 1));
        assert(before.take(n as int).drop_last() =~= before.take(n - 1));
    }
}

/// Growing the history with the initial value adds no covered entry.
pub proof fn lemma_count_set_resized(history: Seq<u8>, len: nat, initial: u8)
    ensures
        count_set(resized(history, len, initial), initial) == count_set(history, initial),
    decreases len,
{
    if history.len() < len {
        let h2 = resized(history, len, initial);
        assert(h2.drop_last() =~= resized(history, (len - 1) as nat, initial));
        lemma_count_set_resized(history, (len - 1) as nat, initial);
    }
}

impl MapFeedbackMetadata {
    /// The history of a map of `map_size` entries, all zero, none covered.
    pub fn new(map_size: usize) -> (r: Self)
        ensures
            r.history_map@ == filled(map_size as nat, 0),
            r.num_covered_map_indexes == 0,
    {
        let mut history_map: Vec<u8> = Vec::new();
        let mut i: usize = 0;
        while i < map_size
            invariant
                0 <= i <= map_size,
                history_map@ == filled(i as nat, 0),
            decreases map_size - i,
        {
            history_map.push(0);
            i = i + 1;
        }
        MapFeedbackMetadata { history_map, num_covered_map_indexes: 0 }
    }

    /// A history built on the given map, counting the entries that differ
    /// from `initial_elem_value` as covered.
    pub fn with_history_map(history_map: Vec<u8>, initial_elem_value: u8) -> (r: Self)
        ensures
            r.history_map == history_map,
            r.num_covered_map_indexes == count_set(history_map@, initial_elem_value),
    {
        let n = history_map.len();
        let mut count: usize = 0;
        let mut i: usize = 0;
        while i < n
            invariant
                n == history_map@.len(),
                0 <= i <= n,
                count == count_set(history_map@.take(i as int), initial_elem_value),
                count <= i,
            decreases n - i,
        {
            assert(history_map@.take(i + 1).drop_last() =~= history_map@.take(i as int));
            if history_map[i] != initial_elem_value {
                count = count + 1;
            }
            i = i + 1;
        }
        assert(history_map@.take(n as int) =~= history_map@);
        MapFeedbackMetadata { history_map, num_covered_map_indexes: count }
    }

    /// Resets every entry to zero; nothing is covered afterwards.
    pub fn reset(&mut self) -> (r: Result<(), Error>)
        ensures
            r is Ok,
            final(self).history_map@ == filled(old(self).history_map@.len(), 0),
            final(self).num_covered_map_indexes == 0,
    {
        self.reset_with_value(0)
    }

    /// Resets every entry to `value`; nothing is counted as covered afterwards.
    pub fn reset_with_value(&mut self, value: u8) -> (r: Result<(), Error>)
        ensures
            r is Ok,
            final(self).history_map@ == filled(old(self).history_map@.len(), value),
            final(self).num_covered_map_indexes == 0,
    {
        let cnt = self.history_map.len();
        let mut i: usize = 0;
        while i < cnt
            invariant
                cnt == self.history_map@.len(),
                cnt == old(self).history_map@.len(),
                0 <= i <= cnt,
                forall|j: int| 0 <= j < i ==> #[trigger] self.history_map@[j] == value,
            decreases cnt - i,
        {
            self.history_map.set(i, value);
            i = i + 1;
        }
        assert(self.history_map@ =~= filled(cnt as nat, value));
        self.num_covered_map_indexes = 0;
        Ok(())
    }

    /// Grows the history to at least `len` entries, new entries taking `fill`.
    pub fn grow(&mut self, len: usize, fill: u8)
        ensures
            final(self).history_map@ == resized(old(self).history_map@, len as nat, fill),
            final(self).num_covered_map_indexes == old(self).num_covered_map_indexes,
    {
        if self.history_map.len() < len {
            let ghost old_h = self.history_map@;
            self.history_map.resize(len, fill);
            assert(self.history_map@ =~= resized(old_h, len as nat, fill)) by {
                assert forall|i: int| old_h.len() <= i < len implies self.history_map@[i] == fill by {
                    assert(cloned::<u8>(fill, self.history_map@[i]));
                }
                assert forall|i: int| 0 <= i < old_h.len() implies self.history_map@[i] == old_h[i] by {
                    assert(self.history_map@.subrange(0, old_h.len() as int)[i] == old_h[i]);
                }
            }
        }
    }
}

/// The most common AFL-like feedback type: a run is interesting when some
/// entry of the observed map, reduced into the history with `R`, is a
/// novelty according to `N`.
#[derive(Debug)]
pub struct MapFeedback<N, R> {
    name: String,
    metadata: MapFeedbackMetadata,
    coverage_stat: Option<(String, String)>,
    phantom: PhantomData<(N, R)>,
}

/// The prefix of the name of the coverage statistic of a map feedback.
pub const STAT_COVERAGE: &'static str = "coverage";

/// The coverage statistic of the map feedback named `name`: its name,
/// `coverage-<name>`, and its value, the JSON array `[covered,len]` of the
/// number of covered entries and the length of the history.
pub open spec fn spec_coverage_stat(name: Seq<char>, covered: nat, len: nat) -> (Seq<char>, Seq<char>) {
    (
        STAT_COVERAGE@ + "-"@ + name,
        "["@ + spec_digits(covered) + ","@ + spec_digits(len) + "]"@,
    )
}

/// The coverage statistic of the map feedback named `name`.
pub fn coverage_stat(name: &str, covered: usize, len: usize) -> (r: (String, String))
    ensures
        (r.0@, r.1@) == spec_coverage_stat(name@, covered as nat, len as nat),
{
    let mut stat_name = STAT_COVERAGE.to_string();
    stat_name.append("-");
    stat_name.append(name);
    let mut value = "[".to_string();
    let c = decimal_string_u64(covered as u64);
    value.append(c.as_str());
    value.append(",");
    let l = decimal_string_u64(len as u64);
    value.append(l.as_str());
    value.append("]");
    (stat_name, value)
}

impl<N, R> MapFeedback<N, R> {
    /// The history of this feedback.
    pub closed spec fn spec_metadata(&self) -> MapFeedbackMetadata {
        self.metadata
    }

    /// Creates a new map feedback, named after the observer, with an empty history.
    pub fn new<O: MapObserver>(map_observer: &O) -> (r: Self)
        ensures
            r.spec_name() == map_observer.spec_name(),
            r.spec_metadata().history_map@ == Seq::<u8>::empty(),
            r.spec_metadata().num_covered_map_indexes == 0,
            r.spec_coverage_stat() is None,
    {
        MapFeedback {
            name: map_observer.name(),
            metadata: MapFeedbackMetadata { history_map: Vec::new(), num_covered_map_indexes: 0 },
            coverage_stat: None,
            phantom: PhantomData,
        }
    }

    /// Creates a new map feedback with a specific name, so that two feedbacks
    /// on the same observer keep separate histories.
    pub fn with_name<O: MapObserver>(name: String, _map_observer: &O) -> (r: Self)
        ensures
            r.spec_name() == name@,
            r.spec_metadata().history_map@ == Seq::<u8>::empty(),
            r.spec_metadata().num_covered_map_indexes == 0,
            r.spec_coverage_stat() is None,
    {
        MapFeedback {
            name,
            metadata: MapFeedbackMetadata { history_map: Vec::new(), num_covered_map_indexes: 0 },
            coverage_stat: None,
            phantom: PhantomData,
        }
    }

    /// Creates a new map feedback with a specific name and history.
    pub fn with_metadata(name: String, metadata: MapFeedbackMetadata) -> (r: Self)
        ensures
            r.spec_name() == name@,
            r.spec_metadata() == metadata,
            r.spec_coverage_stat() is None,
    {
        MapFeedback { name, metadata, coverage_stat: None, phantom: PhantomData }
    }

    /// The coverage statistic recorded last, if any: its name and value.
    pub closed spec fn spec_coverage_stat(&self) -> Option<(Seq<char>, Seq<char>)> {
        match self.coverage_stat {
            Some(p) => Some((p.0@, p.1@)),
            None => None,
        }
    }

    /// The coverage statistic recorded last, if any: its name and value.
    pub fn coverage_stat(&self) -> (r: Option<(String, String)>)
        ensures
            match r {
                Some(p) => self.spec_coverage_stat() == Some((p.0@, p.1@)),
                None => self.spec_coverage_stat() is None,
            },
    {
        match &self.coverage_stat {
            Some(p) => Some((p.0.clone(), p.1.clone())),
            None => None,
        }
    }

    /// The history of this feedback.
    pub fn metadata(&self) -> (r: &MapFeedbackMetadata)
        ensures
            *r == self.spec_metadata(),
    {
        &self.metadata
    }
}

impl<N, R> Named for MapFeedback<N, R> {
    closed spec fn spec_name(&self) -> Seq<char> {
        self.name@
    }

    fn name(&self) -> (r: String) {
        self.name.clone()
    }
}

impl<N: IsNovel<u8>, R: Reducer<u8>> MapFeedback<N, R> {
    /// Whether the map of `observer` brings a novelty over the history.
    /// The history is first grown to the size of the map, with the
    /// observer's initial value.
    pub fn is_interesting_default<O: MapObserver>(&mut self, observer: &O) -> (r: bool)
        ensures
            final(self).spec_metadata().history_map@ == resized(
                old(self).spec_metadata().history_map@,
                observer.spec_map().len(),
                observer.spec_initial(),
            ),
            final(self).spec_metadata().num_covered_map_indexes
                == old(self).spec_metadata().num_covered_map_indexes,
            final(self).spec_name() == old(self).spec_name(),
            final(self).spec_coverage_stat() == old(self).spec_coverage_stat(),
            r == map_is_novel::<N, R>(
                final(self).spec_metadata().history_map@,
                observer.spec_map(),
                observer.spec_initial(),
            ),
    {
        let len = observer.len();
        let initial = observer.initial();
        self.metadata.grow(len, initial);
        let ghost hist = self.metadata.history_map@;
        let mut i: usize = 0;
        while i < len
            invariant
                len == observer.spec_map().len(),
                initial == observer.spec_initial(),
                hist == self.metadata.history_map@,
                hist == resized(old(self).metadata.history_map@, len as nat, initial),
                self.metadata.num_covered_map_indexes == old(self).metadata.num_covered_map_indexes,
                self.name == old(self).name,
                self.coverage_stat == old(self).coverage_stat,
                hist.len() >= len,
                0 <= i <= len,
                forall|j: int|
                    0 <= j < i ==> !(observer.spec_map()[j] != initial && #[trigger] N::spec_is_novel(
                        hist[j],
                        R::spec_reduce(hist[j], observer.spec_map()[j]),
                    )),
            decreases len - i,
        {
            let item = observer.get(i);
            if item != initial {
                let existing = self.metadata.history_map[i];
                let reduced = R::reduce(existing, item);
                if N::is_novel(existing, reduced) {
                    return true;
                }
            }
            i = i + 1;
        }
        false
    }

    /// Folds the map of `observer` into the history and counts the entries
    /// that became covered. Returns the number of covered entries and the
    /// length of the history, the coverage statistic of the feedback.
    pub fn append_map_metadata<O: MapObserver>(&mut self, observer: &O) -> (r: (usize, usize))
        requires
            old(self).spec_metadata().num_covered_map_indexes + resized(
                old(self).spec_metadata().history_map@,
                observer.spec_map().len(),
                observer.spec_initial(),
            ).len() <= usize::MAX,
        ensures
            ({
                let grown = resized(
                    old(self).spec_metadata().history_map@,
                    observer.spec_map().len(),
                    observer.spec_initial(),
                );
                &&& final(self).spec_metadata().history_map@ == folded::<R>(
                    grown,
                    observer.spec_map(),
                    observer.spec_initial(),
                )
                &&& final(self).spec_metadata().num_covered_map_indexes
                    == old(self).spec_metadata().num_covered_map_indexes + count_became_set(
                    grown,
                    final(self).spec_metadata().history_map@,
                    observer.spec_initial(),
                    grown.len(),
                )
            }),
            final(self).spec_name() == old(self).spec_name(),
            final(self).spec_coverage_stat() == old(self).spec_coverage_stat(),
            r.0 == final(self).spec_metadata().num_covered_map_indexes,
            r.1 == final(self).spec_metadata().history_map@.len(),
    {
        let len = observer.len();
        let initial = observer.initial();
        self.metadata.grow(len, initial);
        let ghost grown = self.metadata.history_map@;
        let ghost base = self.metadata.num_covered_map_indexes;
        let mut i: usize = 0;
        while i < len
            invariant
                len == observer.spec_map().len(),
                initial == observer.spec_initial(),
                grown.len() >= len,
                self.metadata.history_map@.len() == grown.len(),
                self.name == old(self).name,
                self.coverage_stat == old(self).coverage_stat,
                0 <= i <= len,
                base + grown.len() <= usize::MAX,
                forall|j: int|
                    0 <= j < i ==> #[trigger] self.metadata.history_map@[j] == folded_entry::<R>(
                        grown[j],
                        observer.spec_map()[j],
                        initial,
                    ),
                forall|j: int|
                    i <= j < grown.len() ==> #[trigger] self.metadata.history_map@[j] == grown[j],
                self.metadata.num_covered_map_indexes == base + count_became_set(
                    grown,
                    self.metadata.history_map@,
                    initial,
                    i as nat,
                ),
            decreases len - i,
        {
            let value = observer.get(i);
            proof {
                lemma_became_set_bounded(grown, self.metadata.history_map@, initial, i as nat);
            }
            if value != initial {
                let h = self.metadata.history_map[i];
                let val = R::reduce(h, value);
                proof {
                    lemma_became_set_frame(grown, self.metadata.history_map@, initial, i as nat, i as int, val);
                }
                if h == initial && val != initial {
                    self.metadata.num_covered_map_indexes = self.metadata.num_covered_map_indexes
                        + 1;
                }
                self.metadata.history_map.set(i, val);
            }
            i = i + 1;
        }
        proof {
            lemma_became_set_tail(grown, self.metadata.history_map@, initial, len as nat, grown.len());
        }
        assert(self.metadata.history_map@ =~= folded::<R>(grown, observer.spec_map(), initial));
        (self.metadata.num_covered_map_indexes, self.metadata.history_map.len())
    }
}

/// When the reducer never brings a covered entry back to the initial value,
/// folding a map keeps an exact coverage counter exact: after the fold, the
/// counter is again the number of history entries that differ from the
/// initial value.
pub proof fn lemma_append_keeps_counter_exact<R: Reducer<u8>>(
    old_history: Seq<u8>,
    map: Seq<u8>,
    initial: u8,
    old_count: nat,
)
    requires
        old_count == count_set(old_history, initial),
        forall|h: u8, v: u8|
            h != initial && v != initial ==> #[trigger] R::spec_reduce(h, v) != initial,
    ensures
        ({
            let grown = resized(old_history, map.len(), initial);
            let new_history = folded::<R>(grown, map, initial);
            old_count + count_became_set(grown, new_history, initial, grown.len()) == count_set(
                new_history,
                initial,
            )
        }),
{
    let grown = resized(old_history, map.len(), initial);
    let new_history = folded::<R>(grown, map, initial);
    lemma_count_set_resized(old_history, map.len(), initial);
    assert forall|j: int| 0 <= j < grown.len() && grown[j] != initial implies new_history[j]
        != initial by {
        if j < map.len() && map[j] != initial {
            assert(R::spec_reduce(grown[j], map[j]) != initial);
        }
    }
    lemma_count_set_grows(grown, new_history, initial, grown.len());
    assert(grown.take(grown.len() as int) =~= grown);
    assert(new_history.take(new_history.len() as int) =~= new_history);
}

/// A map that was just folded into the history brings no novelty anymore
/// to a feedback that looks for changed entries, provided reducing a value
/// twice gives the same as reducing it once.
pub proof fn lemma_folded_map_not_novel<R: Reducer<u8>>(history: Seq<u8>, map: Seq<u8>, initial: u8)
    requires
        forall|h: u8, v: u8| #[trigger] R::spec_reduce(R::spec_reduce(h, v), v) == R::spec_reduce(h, v),
    ensures
        ({
            let grown = resized(history, map.len(), initial);
            let new_history = folded::<R>(grown, map, initial);
            !map_is_novel::<crate::feedbacks::DifferentIsNovel, R>(
                resized(new_history, map.len(), initial),
                map,
                initial,
            )
        }),
{
    let grown = resized(history, map.len(), initial);
    let new_history = folded::<R>(grown, map, initial);
    assert(resized(new_history, map.len(), initial) == new_history);
    assert forall|i: int| 0 <= i < map.len() && map[i] != initial implies !(
    #[trigger] <crate::feedbacks::DifferentIsNovel as IsNovel<u8>>::spec_is_novel(
        new_history[i],
        R::spec_reduce(new_history[i], map[i]),
    )) by {
        assert(new_history[i] == R::spec_reduce(grown[i], map[i]));
        assert(R::spec_reduce(R::spec_reduce(grown[i], map[i]), map[i]) == R::spec_reduce(grown[i], map[i]));
    }
}

/// The max, min, or and nop reducers give the same when applied twice.
pub proof fn lemma_reducers_idempotent(h: u8, v: u8)
    ensures
        <crate::feedbacks::MaxReducer as Reducer<u8>>::spec_reduce(
            <crate::feedbacks::MaxReducer as Reducer<u8>>::spec_reduce(h, v),
            v,
        ) == <crate::feedbacks::MaxReducer as Reducer<u8>>::spec_reduce(h, v),
        <crate::feedbacks::MinReducer as Reducer<u8>>::spec_reduce(
            <crate::feedbacks::MinReducer as Reducer<u8>>::spec_reduce(h, v),
            v,
        ) == <crate::feedbacks::MinReducer as Reducer<u8>>::spec_reduce(h, v),
        <crate::feedbacks::OrReducer as Reducer<u8>>::spec_reduce(
            <crate::feedbacks::OrReducer as Reducer<u8>>::spec_reduce(h, v),
            v,
        ) == <crate::feedbacks::OrReducer as Reducer<u8>>::spec_reduce(h, v),
        <crate::feedbacks::NopReducer as Reducer<u8>>::spec_reduce(
            <crate::feedbacks::NopReducer as Reducer<u8>>::spec_reduce(h, v),
            v,
        ) == <crate::feedbacks::NopReducer as Reducer<u8>>::spec_reduce(h, v),
{
    assert((h | v) | v == h | v) by (bit_vector);
}

impl<O: MapObserver, N: IsNovel<u8>, R: Reducer<u8>> Feedback<O> for MapFeedback<N, R> {
    open spec fn spec_evaluates(&self, observers: O, exit_kind: ExitKind) -> bool {
        true
    }

    open spec fn spec_is_interesting(&self, observers: O, exit_kind: ExitKind) -> bool {
        map_is_novel::<N, R>(
            resized(
                self.spec_metadata().history_map@,
                observers.spec_map().len(),
                observers.spec_initial(),
            ),
            observers.spec_map(),
            observers.spec_initial(),
        )
    }

    /// The history is grown to the length of the observed map with its
    /// initial value; the counter, the name and the statistic stay.
    open spec fn spec_evaluation(&self, observers: O, exit_kind: ExitKind, after: Self) -> bool {
        &&& after.spec_metadata().history_map@ == resized(
            self.spec_metadata().history_map@,
            observers.spec_map().len(),
            observers.spec_initial(),
        )
        &&& after.spec_metadata().num_covered_map_indexes
            == self.spec_metadata().num_covered_map_indexes
        &&& after.spec_name() == self.spec_name()
        &&& after.spec_coverage_stat() == self.spec_coverage_stat()
    }

    fn is_interesting(&mut self, observers: &O, _exit_kind: &ExitKind) -> (r: Result<bool, Error>) {
        Ok(self.is_interesting_default(observers))
    }

    /// The observed map is folded into the history and the newly covered
    /// entries are counted; when the counter could overflow, nothing changes
    /// and an error is the result.
    open spec fn spec_append_metadata(&self, observers: O, testcase_id: TestcaseId, after: Self, r: Result<(), Error>) -> bool {
        let grown = resized(
            self.spec_metadata().history_map@,
            observers.spec_map().len(),
            observers.spec_initial(),
        );
        if self.spec_metadata().num_covered_map_indexes + grown.len() <= usize::MAX {
            &&& r is Ok
            &&& after.spec_metadata().history_map@ == folded::<R>(
                grown,
                observers.spec_map(),
                observers.spec_initial(),
            )
            &&& after.spec_metadata().num_covered_map_indexes
                == self.spec_metadata().num_covered_map_indexes + count_became_set(
                grown,
                after.spec_metadata().history_map@,
                observers.spec_initial(),
                grown.len(),
            )
            &&& after.spec_name() == self.spec_name()
            &&& after.spec_coverage_stat() == Some(
                spec_coverage_stat(
                    self.spec_name(),
                    after.spec_metadata().num_covered_map_indexes as nat,
                    after.spec_metadata().history_map@.len(),
                ),
            )
        } else {
            r is Err && after == *self
        }
    }

    /// Folds the observed map into the history, unless the coverage counter
    /// could overflow, in which case the history is left untouched.
    fn append_metadata(&mut self, observers: &O, _testcase_id: &TestcaseId) -> (r: Result<(), Error>)
        ensures
            r is Ok <==> old(self).spec_metadata().num_covered_map_indexes + resized(
                old(self).spec_metadata().history_map@,
                observers.spec_map().len(),
                observers.spec_initial(),
            ).len() <= usize::MAX,
            r is Err ==> *final(self) == *old(self),
            r is Ok ==> ({
                let grown = resized(
                    old(self).spec_metadata().history_map@,
                    observers.spec_map().len(),
                    observers.spec_initial(),
                );
                &&& final(self).spec_metadata().history_map@ == folded::<R>(
                    grown,
                    observers.spec_map(),
                    observers.spec_initial(),
                )
                &&& final(self).spec_metadata().num_covered_map_indexes
                    == old(self).spec_metadata().num_covered_map_indexes + count_became_set(
                    grown,
                    final(self).spec_metadata().history_map@,
                    observers.spec_initial(),
                    grown.len(),
                )
                &&& final(self).spec_name() == old(self).spec_name()
                &&& final(self).spec_coverage_stat() == Some(
                    spec_coverage_stat(
                        old(self).spec_name(),
                        final(self).spec_metadata().num_covered_map_indexes as nat,
                        final(self).spec_metadata().history_map@.len(),
                    ),
                )
            }),
    {
        let len = observers.len();
        let hist_len = self.metadata.history_map.len();
        let grown_len = if hist_len < len {
            len
        } else {
            hist_len
        };
        if self.metadata.num_covered_map_indexes > usize::MAX - grown_len {
            return Err(Error::IllegalState("the coverage counter would overflow".to_string()));
        }
        let (covered, map_len) = self.append_map_metadata(observers);
        self.coverage_stat = Some(coverage_stat(self.name.as_str(), covered, map_len));
        Ok(())
    }
}

} // verus!
