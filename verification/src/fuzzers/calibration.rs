//! Calibration runs a new testcase a few more times and marks the coverage
//! entries that change from run to run as unstable, so that they no longer
//! count as new coverage.
use vstd::prelude::*;
use crate::collections::U64Set;
use crate::common::{decimal_string_u64, spec_digits, Named};
use crate::error::Error;
use crate::executors::ExitKind;
use crate::feedbacks::map::{resized, MapFeedbackMetadata};

verus! {

/// How many times a testcase is run for calibration.
pub const CAL_STAGE_MAX: usize = 8;

/// The coverage entries found unstable, and how many entries the first run filled.
#[derive(Debug)]
pub struct UnstableEntriesMetadata {
    unstable_entries: U64Set,
    filled_entries_count: usize,
}

impl UnstableEntriesMetadata {
    /// The indexes of the unstable entries.
    pub closed spec fn spec_unstable(&self) -> Set<u64> {
        self.unstable_entries.spec_contents()
    }

    /// How many entries the first run of the last calibration filled.
    pub closed spec fn spec_filled(&self) -> usize {
        self.filled_entries_count
    }

    /// Nothing unstable yet.
    pub fn new() -> (r: Self)
        ensures
            r.spec_unstable() == Set::<u64>::empty(),
            r.spec_filled() == 0,
    {
        UnstableEntriesMetadata { unstable_entries: U64Set::new(), filled_entries_count: 0 }
    }

    /// The indexes of the unstable entries.
    pub fn unstable_entries(&self) -> (r: &U64Set)
        ensures
            r.spec_contents() == self.spec_unstable(),
    {
        &self.unstable_entries
    }

    /// How many entries the first run of the last calibration filled.
    pub fn filled_entries_count(&self) -> (r: usize)
        ensures
            r == self.spec_filled(),
    {
        self.filled_entries_count
    }

    /// Adds the unstable entries found by a calibration and the number of
    /// entries its first run filled.
    pub fn record(&mut self, entries: &Vec<usize>, filled: usize)
        ensures
            final(self).spec_unstable() == old(self).spec_unstable().union(
                entries@.map_values(|e: usize| e as u64).to_set(),
            ),
            final(self).spec_filled() == filled,
    {
        let ghost wide = entries@.map_values(|e: usize| e as u64);
        let mut i: usize = 0;
        while i < entries.len()
            invariant
                0 <= i <= entries@.len(),
                wide == entries@.map_values(|e: usize| e as u64),
                self.spec_unstable() == old(self).spec_unstable().union(wide.take(i as int).to_set()),
            decreases entries@.len() - i,
        {
            let v = entries[i] as u64;
            self.unstable_entries.insert(v);
            proof {
                assert(wide.take(i + 1) =~= wide.take(i as int).push(v));
                wide.take(i as int).lemma_push_to_set_commute(v);
                assert(self.spec_unstable() =~= old(self).spec_unstable().union(
                    wide.take(i + 1).to_set(),
                ));
            }
            i = i + 1;
        }
        assert(wide.take(entries@.len() as int) =~= wide);
        self.filled_entries_count = filled;
    }
}

impl Default for UnstableEntriesMetadata {
    fn default() -> (r: Self)
        ensures
            r.spec_unstable() == Set::<u64>::empty(),
            r.spec_filled() == 0,
    {
        Self::new()
    }
}

/// Whether entry `i` is found unstable: the run differs from the first one
/// there, and the entry is not marked already.
pub open spec fn spec_unstable_at(first: Seq<u8>, current: Seq<u8>, history: Seq<u8>, i: int) -> bool {
    first[i] != current[i] && history[i] != 255
}

/// The indexes below `n` found unstable, in increasing order.
pub open spec fn spec_unstable_indexes(first: Seq<u8>, current: Seq<u8>, history: Seq<u8>, n: nat) -> Seq<
    usize,
>
    decreases n,
{
    if n == 0 {
        Seq::empty()
    } else {
        let prev = spec_unstable_indexes(first, current, history, (n - 1) as nat);
        if spec_unstable_at(first, current, history, n - 1) {
            prev.push((n - 1) as usize)
        } else {
            prev
        }
    }
}

/// How many of the entries below `n` found unstable were not covered before.
pub open spec fn spec_newly_covered(first: Seq<u8>, current: Seq<u8>, history: Seq<u8>, n: nat) -> nat
    decreases n,
{
    if n == 0 {
        0
    } else {
        spec_newly_covered(first, current, history, (n - 1) as nat) + if spec_unstable_at(
            first,
            current,
            history,
            n - 1,
        ) && history[n - 1] == 0 {
            1nat
        } else {
            0nat
        }
    }
}

/// The history with the entries below `n` found unstable marked at the
/// largest value.
pub open spec fn spec_marked(first: Seq<u8>, current: Seq<u8>, history: Seq<u8>, n: nat) -> Seq<u8> {
    Seq::new(
        history.len(),
        |i: int|
            if i < n && spec_unstable_at(first, current, history, i) {
                255u8
            } else {
                history[i]
            },
    )
}

/// The number of entries compared: those present in the first run, the
/// current run and the (grown) history.
pub open spec fn spec_compared(first: Seq<u8>, current: Seq<u8>, history: Seq<u8>) -> nat {
    let a = if first.len() < current.len() {
        first.len()
    } else {
        current.len()
    };
    if a < history.len() {
        a
    } else {
        history.len()
    }
}

/// Compares a calibration run with the first run: every entry that differs
/// and is not marked yet is marked at the largest value in the history
/// (grown to the first run's length if shorter), counted as covered if it
/// was not, and its index is appended to `unstable`.
pub fn mark_unstable_entries(
    first: &Vec<u8>,
    current: &Vec<u8>,
    metadata: &mut MapFeedbackMetadata,
    unstable: &mut Vec<usize>,
)
    requires
        old(metadata).num_covered_map_indexes + first@.len() <= usize::MAX,
    ensures
        ({
            let h = resized(old(metadata).history_map@, first@.len(), 0);
            let n = spec_compared(first@, current@, h);
            &&& final(metadata).history_map@ == spec_marked(first@, current@, h, n)
            &&& final(metadata).num_covered_map_indexes == old(metadata).num_covered_map_indexes
                + spec_newly_covered(first@, current@, h, n)
            &&& final(unstable)@ == old(unstable)@ + spec_unstable_indexes(first@, current@, h, n)
        }),
{
    metadata.grow(first.len(), 0);
    let ghost h = metadata.history_map@;
    let a = if first.len() < current.len() {
        first.len()
    } else {
        current.len()
    };
    let n = if a < metadata.history_map.len() {
        a
    } else {
        metadata.history_map.len()
    };
    let ghost u0 = unstable@;
    let ghost c0 = metadata.num_covered_map_indexes;
    let mut idx: usize = 0;
    while idx < n
        invariant
            0 <= idx <= n,
            n == spec_compared(first@, current@, h),
            n <= first@.len(),
            h.len() >= first@.len(),
            metadata.history_map@.len() == h.len(),
            c0 + first@.len() <= usize::MAX,
            spec_newly_covered(first@, current@, h, idx as nat) <= idx,
            metadata.num_covered_map_indexes == c0 + spec_newly_covered(first@, current@, h, idx as nat),
            unstable@ == u0 + spec_unstable_indexes(first@, current@, h, idx as nat),
            forall|i: int| 0 <= i < h.len() ==> #[trigger] metadata.history_map@[i] == if i < idx
                && spec_unstable_at(first@, current@, h, i) {
                255u8
            } else {
                h[i]
            },
        decreases n - idx,
    {
        let f = first[idx];
        let c = current[idx];
        let hv = metadata.history_map[idx];
        if f != c && hv != 255 {
            if hv == 0 {
                metadata.num_covered_map_indexes = metadata.num_covered_map_indexes + 1;
            }
            metadata.history_map.set(idx, 255);
            unstable.push(idx);
        }
        proof {
            assert(unstable@ =~= u0 + spec_unstable_indexes(first@, current@, h, (idx + 1) as nat));
        }
        idx = idx + 1;
    }
    proof {
        assert(metadata.history_map@ =~= spec_marked(first@, current@, h, n as nat));
    }
}

/// How many calibration runs to do, given how many were planned and
/// whether unstable entries were found: two more, while below the maximum.
pub fn next_stage_count(iter: usize, unstable_found: bool) -> (r: usize)
    ensures
        r == if unstable_found && iter < CAL_STAGE_MAX {
            iter + 2
        } else {
            iter as int
        },
{
    if unstable_found && iter < CAL_STAGE_MAX {
        iter + 2
    } else {
        iter
    }
}

/// An index is found unstable exactly when it is below `n` and unstable.
pub proof fn lemma_unstable_indexes_members(
    first: Seq<u8>,
    current: Seq<u8>,
    history: Seq<u8>,
    n: nat,
)
    requires
        n <= usize::MAX,
    ensures
        forall|i: int|
            0 <= i < n ==> (spec_unstable_indexes(first, current, history, n).contains(i as usize)
                <==> spec_unstable_at(first, current, history, i)),
        forall|k: int|
            0 <= k < spec_unstable_indexes(first, current, history, n).len() ==> (#[trigger] spec_unstable_indexes(
                first,
                current,
                history,
                n,
            )[k]) < n,
    decreases n,
{
    if n > 0 {
        lemma_unstable_indexes_members(first, current, history, (n - 1) as nat);
        let prev = spec_unstable_indexes(first, current, history, (n - 1) as nat);
        assert forall|i: int|
            0 <= i < n implies (spec_unstable_indexes(first, current, history, n).contains(i as usize)
            <==> spec_unstable_at(first, current, history, i)) by {
            if spec_unstable_at(first, current, history, n - 1) {
                let s = prev.push((n - 1) as usize);
                if i < n - 1 {
                    if s.contains(i as usize) {
                        let k = choose|k: int| 0 <= k < s.len() && s[k] == i as usize;
                        if k < prev.len() {
                            assert(prev[k] == i as usize);
                        }
                    }
                    if prev.contains(i as usize) {
                        let k = choose|k: int| 0 <= k < prev.len() && prev[k] == i as usize;
                        assert(s[k] == i as usize);
                    }
                } else {
                    assert(s[prev.len() as int] == i as usize);
                }
            } else {
                if i == n - 1 {
                    if prev.contains(i as usize) {
                        let k = choose|k: int| 0 <= k < prev.len() && prev[k] == i as usize;
                        assert(prev[k] < n - 1);
                    }
                }
            }
        }
    }
}

/// An entry is reported unstable at most once: after a calibration run marks
/// the entries it finds, a further run against the same first run finds
/// none of them again.
pub proof fn lemma_unstable_reported_once(
    first: Seq<u8>,
    current: Seq<u8>,
    next: Seq<u8>,
    history: Seq<u8>,
    n: nat,
)
    requires
        n <= history.len(),
        n <= usize::MAX,
    ensures
        forall|i: int|
            0 <= i < n && #[trigger] spec_unstable_indexes(first, current, history, n).contains(i as usize)
                ==> !spec_unstable_indexes(
                first,
                next,
                spec_marked(first, current, history, n),
                n,
            ).contains(i as usize),
{
    let marked = spec_marked(first, current, history, n);
    lemma_unstable_indexes_members(first, current, history, n);
    lemma_unstable_indexes_members(first, next, marked, n);
    assert forall|i: int|
        0 <= i < n && #[trigger] spec_unstable_indexes(first, current, history, n).contains(i as usize)
            implies !spec_unstable_indexes(first, next, marked, n).contains(i as usize) by {
        assert(spec_unstable_at(first, current, history, i));
        assert(marked[i] == 255u8);
        assert(!spec_unstable_at(first, next, marked, i));
    }
}

/// The entries found unstable come in increasing order.
pub proof fn lemma_unstable_indexes_increasing(first: Seq<u8>, current: Seq<u8>, history: Seq<u8>, n: nat)
    requires
        n <= usize::MAX,
    ensures
        forall|j: int, k: int|
            0 <= j < k < spec_unstable_indexes(first, current, history, n).len() ==> #[trigger] spec_unstable_indexes(
                first,
                current,
                history,
                n,
            )[j] < #[trigger] spec_unstable_indexes(first, current, history, n)[k],
    decreases n,
{
    if n > 0 {
        lemma_unstable_indexes_increasing(first, current, history, (n - 1) as nat);
        lemma_unstable_indexes_members(first, current, history, (n - 1) as nat);
        let prev = spec_unstable_indexes(first, current, history, (n - 1) as nat);
        let s = spec_unstable_indexes(first, current, history, n);
        assert forall|j: int, k: int| 0 <= j < k < s.len() implies #[trigger] s[j] < #[trigger] s[k] by {
            if k < prev.len() {
                assert(prev[j] < prev[k]);
            } else {
                assert(prev[j] < n - 1);
            }
        }
    }
}

/// Whether each entry of `unstable` occurs once and is marked at the largest
/// value in `history`.
pub open spec fn spec_recorded_once(unstable: Seq<usize>, history: Seq<u8>) -> bool {
    &&& unstable.no_duplicates()
    &&& forall|k: int|
        0 <= k < unstable.len() ==> (#[trigger] unstable[k]) < history.len() && history[unstable[k] as int]
            == 255
}

/// A calibration run keeps every unstable entry recorded once: when the
/// entries found so far each occur once and are marked in the history, the
/// same holds after the run appends the entries it finds and marks them.
pub proof fn lemma_run_records_once(first: Seq<u8>, current: Seq<u8>, history: Seq<u8>, unstable: Seq<usize>)
    requires
        first.len() <= usize::MAX,
        spec_recorded_once(unstable, history),
    ensures
        ({
            let h = resized(history, first.len(), 0);
            let n = spec_compared(first, current, h);
            spec_recorded_once(
                unstable + spec_unstable_indexes(first, current, h, n),
                spec_marked(first, current, h, n),
            )
        }),
{
    let h = resized(history, first.len(), 0);
    let n = spec_compared(first, current, h);
    let found = spec_unstable_indexes(first, current, h, n);
    let marked = spec_marked(first, current, h, n);
    let all = unstable + found;
    lemma_unstable_indexes_members(first, current, h, n);
    lemma_unstable_indexes_increasing(first, current, h, n);
    assert forall|k: int| 0 <= k < unstable.len() implies h[#[trigger] unstable[k] as int] == 255 by {
        assert(unstable[k] < history.len());
    }
    assert forall|k: int| 0 <= k < all.len() implies (#[trigger] all[k]) < marked.len() && marked[all[k] as int]
        == 255 by {
        if k < unstable.len() {
            assert(all[k] == unstable[k]);
            assert(h[unstable[k] as int] == 255);
        } else {
            let e = found[k - unstable.len()];
            assert(all[k] == e);
            assert(found.contains(e));
            assert(spec_unstable_at(first, current, h, e as int));
        }
    }
    assert forall|j: int, k: int| 0 <= j < all.len() && 0 <= k < all.len() && j != k implies all[j] != all[k] by {
        if j < unstable.len() && k < unstable.len() {
            assert(unstable[j] != unstable[k]);
        } else if j >= unstable.len() && k >= unstable.len() {
            if j < k {
                assert(found[j - unstable.len()] < found[k - unstable.len()]);
            } else {
                assert(found[k - unstable.len()] < found[j - unstable.len()]);
            }
        } else {
            let (o, f) = if j < unstable.len() { (j, k) } else { (k, j) };
            let e = found[f - unstable.len()];
            assert(found.contains(e));
            assert(spec_unstable_at(first, current, h, e as int));
            assert(h[unstable[o] as int] == 255);
        }
    }
}

/// Calibration, named after the map feedback whose history it marks.
#[derive(Debug, Clone)]
pub struct CalibrationHook {
    stage_max: usize,
    name: String,
    map_name: String,
}

impl CalibrationHook {
    /// The name of the map feedback whose history is marked.
    pub closed spec fn spec_map_name(&self) -> Seq<char> {
        self.map_name@
    }

    /// How many runs a calibration does.
    pub closed spec fn spec_stage_max(&self) -> usize {
        self.stage_max
    }

    /// A calibration for the history of `map_feedback`, named `calibration_` and its name.
    pub fn new<F: Named>(map_feedback: &F) -> (r: Self)
        ensures
            r.spec_map_name() == map_feedback.spec_name(),
            r.spec_name() == "calibration_"@ + map_feedback.spec_name(),
            r.spec_stage_max() == CAL_STAGE_MAX,
    {
        let map_name = map_feedback.name();
        let mut name = "calibration_".to_string();
        name.append(map_name.as_str());
        CalibrationHook { stage_max: CAL_STAGE_MAX, name, map_name }
    }

    /// The name of the map feedback whose history is marked.
    pub fn map_name(&self) -> (r: &str)
        ensures
            r@ == self.spec_map_name(),
    {
        self.map_name.as_str()
    }

    /// How many runs a calibration does.
    pub fn stage_max(&self) -> (r: usize)
        ensures
            r == self.spec_stage_max(),
    {
        self.stage_max
    }
}

/// The error given when the filled entries of the first run, as the map
/// counts them, do not fit in a `usize`.
pub open spec fn spec_filled_count_error(count: u64) -> Seq<char> {
    "map's filled entry count ("@ + spec_digits(count as nat) + ") is greater than usize::MAX ("@
        + spec_digits(usize::MAX as nat) + ")"@
}

/// A calibration in progress: the map of the first run, the number of
/// entries it filled, how many runs were done and how many are planned, and
/// the unstable entries found so far.
#[derive(Debug)]
pub struct Calibration {
    first: Vec<u8>,
    filled: usize,
    runs: usize,
    stage_max: usize,
    iter: usize,
    unstable: Vec<usize>,
}

impl Calibration {
    /// The map of the first run.
    pub closed spec fn spec_first(&self) -> Seq<u8> {
        self.first@
    }

    /// How many entries the first run filled.
    pub closed spec fn spec_filled(&self) -> usize {
        self.filled
    }

    /// How many runs were done, the first one included.
    pub closed spec fn spec_runs(&self) -> usize {
        self.runs
    }

    /// How many runs the calibration does.
    pub closed spec fn spec_stage_max(&self) -> usize {
        self.stage_max
    }

    /// The planned number of runs, as the power schedule counts them.
    pub closed spec fn spec_iter(&self) -> usize {
        self.iter
    }

    /// The unstable entries found so far, in the order they were found.
    pub closed spec fn spec_unstable(&self) -> Seq<usize> {
        self.unstable@
    }

    /// Whether another run is due.
    pub fn needs_run(&self) -> (r: bool)
        ensures
            r == (self.spec_runs() < self.spec_stage_max()),
    {
        self.runs < self.stage_max
    }

    /// Takes a further run into account: a run that timed out changes
    /// nothing but the count of runs; otherwise the entries that differ from
    /// the first run are marked unstable in `metadata`, added to the
    /// unstable entries, and two more runs are planned when some unstable
    /// entry is known, while below the maximum. When each unstable entry
    /// found so far occurs once and is marked in `metadata`, that still holds
    /// after the run.
    pub fn on_run(&mut self, metadata: &mut MapFeedbackMetadata, exit_kind: ExitKind, map: &Vec<u8>)
        requires
            old(self).spec_runs() < old(self).spec_stage_max(),
            old(metadata).num_covered_map_indexes + old(self).spec_first().len() <= usize::MAX,
        ensures
            final(self).spec_runs() == old(self).spec_runs() + 1,
            final(self).spec_first() == old(self).spec_first(),
            final(self).spec_filled() == old(self).spec_filled(),
            final(self).spec_stage_max() == old(self).spec_stage_max(),
            exit_kind is Timeout ==> {
                &&& *final(metadata) == *old(metadata)
                &&& final(self).spec_unstable() == old(self).spec_unstable()
                &&& final(self).spec_iter() == old(self).spec_iter()
            },
            !(exit_kind is Timeout) ==> ({
                let first = old(self).spec_first();
                let h = resized(old(metadata).history_map@, first.len(), 0);
                let n = spec_compared(first, map@, h);
                &&& final(metadata).history_map@ == spec_marked(first, map@, h, n)
                &&& final(metadata).num_covered_map_indexes == old(metadata).num_covered_map_indexes
                    + spec_newly_covered(first, map@, h, n)
                &&& final(self).spec_unstable() == old(self).spec_unstable()
                    + spec_unstable_indexes(first, map@, h, n)
                &&& final(self).spec_iter() == if final(self).spec_unstable().len() > 0
                    && old(self).spec_iter() < CAL_STAGE_MAX {
                    old(self).spec_iter() + 2
                } else {
                    old(self).spec_iter() as int
                }
            }),
            spec_recorded_once(old(self).spec_unstable(), old(metadata).history_map@)
                ==> spec_recorded_once(final(self).spec_unstable(), final(metadata).history_map@),
    {
        if !matches!(exit_kind, ExitKind::Timeout) {
            proof {
                if spec_recorded_once(self.unstable@, metadata.history_map@) {
                    lemma_run_records_once(self.first@, map@, metadata.history_map@, self.unstable@);
                }
            }
            mark_unstable_entries(&self.first, map, metadata, &mut self.unstable);
            self.iter = next_stage_count(self.iter, self.unstable.len() > 0);
        }
        self.runs = self.runs + 1;
    }

    /// Ends the calibration: when unstable entries were found, they join
    /// those of `unstable_md`, whose filled count becomes the first run's;
    /// `unstable_md` is left as it was otherwise. Whether unstable entries
    /// were found.
    pub fn finish(&self, unstable_md: &mut UnstableEntriesMetadata) -> (r: bool)
        ensures
            r == (self.spec_unstable().len() > 0),
            r ==> final(unstable_md).spec_unstable() == old(unstable_md).spec_unstable().union(
                self.spec_unstable().map_values(|e: usize| e as u64).to_set(),
            ) && final(unstable_md).spec_filled() == self.spec_filled(),
            !r ==> *final(unstable_md) == *old(unstable_md),
    {
        if self.unstable.len() > 0 {
            unstable_md.record(&self.unstable, self.filled);
            true
        } else {
            false
        }
    }

    /// The length of the first run's map.
    pub fn first_len(&self) -> (r: usize)
        ensures
            r == self.spec_first().len(),
    {
        self.first.len()
    }

    /// How many unstable entries were found.
    pub fn unstable_count(&self) -> (r: usize)
        ensures
            r == self.spec_unstable().len(),
    {
        self.unstable.len()
    }

    /// How many entries the first run filled.
    pub fn filled(&self) -> (r: usize)
        ensures
            r == self.spec_filled(),
    {
        self.filled
    }

    /// The planned number of runs, as the power schedule counts them.
    pub fn iter(&self) -> (r: usize)
        ensures
            r == self.spec_iter(),
    {
        self.iter
    }
}

impl CalibrationHook {
    /// Starts calibrating a testcase whose first run gave `first_map`: the
    /// entries it filled are the covered entries of the map feedback's
    /// history when there is one, else the map's own count of filled
    /// entries, refused when that does not fit in a `usize`. One run is
    /// done; none has found unstable entries, so each is trivially recorded
    /// once against any history.
    pub fn start(&self, metadata: Option<&MapFeedbackMetadata>, first_map: Vec<u8>, first_count_bytes: u64) -> (r: Result<
        Calibration,
        Error,
    >)
        ensures
            match metadata {
                Some(m) => r matches Ok(c) && c.spec_filled() == m.num_covered_map_indexes,
                None => if first_count_bytes <= usize::MAX {
                    r matches Ok(c) && c.spec_filled() == first_count_bytes
                } else {
                    r matches Err(Error::IllegalState(m)) && m@ == spec_filled_count_error(
                        first_count_bytes,
                    )
                },
            },
            r matches Ok(c) ==> {
                &&& c.spec_first() == first_map@
                &&& c.spec_runs() == 1
                &&& c.spec_stage_max() == self.spec_stage_max()
                &&& c.spec_iter() == self.spec_stage_max()
                &&& c.spec_unstable() == Seq::<usize>::empty()
                &&& forall|h: Seq<u8>| #[trigger] spec_recorded_once(c.spec_unstable(), h)
            },
    {
        let filled = match metadata {
            Some(m) => m.num_covered_map_indexes,
            None => {
                if first_count_bytes > usize::MAX as u64 {
                    let mut msg = "map's filled entry count (".to_string();
                    let a = decimal_string_u64(first_count_bytes);
                    msg.append(a.as_str());
                    msg.append(") is greater than usize::MAX (");
                    let b = decimal_string_u64(usize::MAX as u64);
                    msg.append(b.as_str());
                    msg.append(")");
                    return Err(Error::IllegalState(msg));
                }
                first_count_bytes as usize
            },
        };
        Ok(
            Calibration {
                first: first_map,
                filled,
                runs: 1,
                stage_max: self.stage_max,
                iter: self.stage_max,
                unstable: Vec::new(),
            },
        )
    }
}

impl Named for CalibrationHook {
    closed spec fn spec_name(&self) -> Seq<char> {
        self.name@
    }

    fn name(&self) -> (r: String) {
        self.name.clone()
    }
}

} // verus!
