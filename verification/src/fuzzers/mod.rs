//! The fuzzer: evaluation results and the standard fuzzer.
use std::time::Instant;
use vstd::prelude::*;
use crate::corpus::{Testcase, TestcaseId};
use crate::error::Error;
use crate::executors::ExitKind;
use crate::observers::time::instant_now;

pub mod calibration;
pub mod custom_name;
pub mod standard;

pub use custom_name::{CustomNameHook, FilenameGenerator};
pub use standard::{LoaderMetadata, Loading, RanInput, StdFuzzer, StdFuzzerBuilder};

verus! {

/// The outcome of a fuzzing step.
#[derive(Debug, Clone, Copy, PartialEq, Eq, Structural)]
pub enum FuzzerOutcome {
    /// The fuzzer finished a single fuzzing run, by running a scheduled testcase
    Finished,
    /// The fuzzer exited early because the scheduler was empty
    Idle,
}

/// The verdict of a fuzzer evaluation: what the interest was, and in which
/// corpus the input was ultimately stored.
#[derive(Debug, Clone, Copy, PartialEq, Eq, Structural)]
pub enum Verdict {
    /// No special input
    Uninteresting,
    /// This input has been stored in the corpus, with the given id
    Corpus(TestcaseId),
    /// This input has been stored in the objective corpus, with the given id
    Objective(TestcaseId),
}

impl Verdict {
    /// The name of the verdict, without its id.
    pub fn name(&self) -> (r: String)
        ensures
            r@ == match *self {
                Verdict::Uninteresting => "Uninteresting"@,
                Verdict::Corpus(_) => "Corpus"@,
                Verdict::Objective(_) => "Objective"@,
            },
    {
        match self {
            Verdict::Uninteresting => "Uninteresting".to_string(),
            Verdict::Corpus(_) => "Corpus".to_string(),
            Verdict::Objective(_) => "Objective".to_string(),
        }
    }
}

/// Whether an input is interesting enough to be stored in a corpus: the
/// decision of the feedbacks, before any corpus is updated.
#[derive(Debug, Clone, Copy, PartialEq, Eq, Structural)]
pub enum Interest {
    /// No special input
    Uninteresting,
    /// This input should be stored in the corpus
    Corpus,
    /// This input should be stored in the objective corpus
    Objective,
}

/// The result of a fuzzer evaluation: how the executor ended, and the verdict.
#[derive(Debug, Clone, Copy, PartialEq, Eq, Structural)]
pub struct EvaluationResult {
    exit_kind: ExitKind,
    verdict: Verdict,
}

impl EvaluationResult {
    /// The exit kind.
    pub closed spec fn spec_exit_kind(&self) -> ExitKind {
        self.exit_kind
    }

    /// The verdict.
    pub closed spec fn spec_verdict(&self) -> Verdict {
        self.verdict
    }

    /// The id the input got, if it was stored in a corpus.
    pub open spec fn spec_testcase_id(&self) -> Option<TestcaseId> {
        match self.spec_verdict() {
            Verdict::Corpus(id) => Some(id),
            Verdict::Objective(id) => Some(id),
            Verdict::Uninteresting => None,
        }
    }

    /// Get a new [`EvaluationResult`].
    pub fn new(exit_kind: ExitKind, verdict: Verdict) -> (r: Self)
        ensures
            r.spec_exit_kind() == exit_kind,
            r.spec_verdict() == verdict,
    {
        EvaluationResult { exit_kind, verdict }
    }

    /// The result of an entry deemed not interesting, after a normal exit.
    pub fn not_interesting() -> (r: Self)
        ensures
            r.spec_exit_kind() == ExitKind::Normal,
            r.spec_verdict() == Verdict::Uninteresting,
    {
        EvaluationResult { exit_kind: ExitKind::Normal, verdict: Verdict::Uninteresting }
    }

    /// Whether the input went to the objective corpus.
    pub fn is_objective_worthy(&self) -> (r: bool)
        ensures
            r == (self.spec_verdict() is Objective),
    {
        matches!(self.verdict, Verdict::Objective(_))
    }

    /// Whether the input went to the corpus.
    pub fn is_corpus_worthy(&self) -> (r: bool)
        ensures
            r == (self.spec_verdict() is Corpus),
    {
        matches!(self.verdict, Verdict::Corpus(_))
    }

    /// The id the input got, if it was stored in a corpus.
    pub fn testcase_id(&self) -> (r: Option<TestcaseId>)
        ensures
            r == self.spec_testcase_id(),
    {
        match self.verdict {
            Verdict::Corpus(testcase_id) => Some(testcase_id),
            Verdict::Objective(testcase_id) => Some(testcase_id),
            Verdict::Uninteresting => None,
        }
    }

    /// The verdict.
    pub fn vertict(&self) -> (r: &Verdict)
        ensures
            *r == self.spec_verdict(),
    {
        &self.verdict
    }

    /// The exit kind.
    pub fn exit_kind(&self) -> (r: ExitKind)
        ensures
            r == self.spec_exit_kind(),
    {
        self.exit_kind
    }
}

/// The result of loading an input: the input and its evaluation.
#[derive(Debug, Clone)]
pub struct LoadResult<I> {
    input: I,
    result: EvaluationResult,
}

impl<I> LoadResult<I> {
    /// The input.
    pub closed spec fn spec_input(&self) -> I {
        self.input
    }

    /// The evaluation.
    pub closed spec fn spec_result(&self) -> EvaluationResult {
        self.result
    }

    /// Create a new [`LoadResult`].
    pub fn new(input: I, result: EvaluationResult) -> (r: Self)
        ensures
            r.spec_input() == input,
            r.spec_result() == result,
    {
        LoadResult { input, result }
    }

    /// The id the input got, if it was stored in a corpus.
    pub fn testcase_id(&self) -> (r: Option<TestcaseId>)
        ensures
            r == self.spec_result().spec_testcase_id(),
    {
        self.result.testcase_id()
    }

    /// The input that was run.
    pub fn input(&self) -> (r: &I)
        ensures
            *r == self.spec_input(),
    {
        &self.input
    }

    /// The evaluation.
    pub fn result(&self) -> (r: &EvaluationResult)
        ensures
            *r == self.spec_result(),
    {
        &self.result
    }
}

/// Hooks the fuzzer runs around adding a testcase to a corpus.
pub trait FuzzerHooksTuple<I>: Sized {
    /// Whether the hooks run before `testcase` is added, as `interest` says,
    /// can take them from `self` to `after`, ending in `r`.
    spec fn spec_pre_add_all(&self, testcase: Testcase<I>, interest: Interest, after: Self, r: Result<(), Error>) -> bool;

    /// Whether the hooks run after a testcase was added, with `verdict`, can
    /// take them from `self` to `after`, ending in `r`.
    spec fn spec_post_add_all(&self, verdict: Verdict, after: Self, r: Result<(), Error>) -> bool;

    /// Runs the hooks before a testcase is added to a corpus.
    fn pre_add_all(&mut self, testcase: &Testcase<I>, interest: Interest) -> (r: Result<(), Error>)
        ensures
            old(self).spec_pre_add_all(*testcase, interest, *final(self), r),
    ;

    /// Runs the hooks after a testcase was added to a corpus.
    fn post_add_all(&mut self, verdict: Verdict) -> (r: Result<(), Error>)
        ensures
            old(self).spec_post_add_all(verdict, *final(self), r),
    ;
}

/// No hook: nothing happens.
impl<I> FuzzerHooksTuple<I> for () {
    open spec fn spec_pre_add_all(&self, testcase: Testcase<I>, interest: Interest, after: Self, r: Result<(), Error>) -> bool {
        r is Ok
    }

    open spec fn spec_post_add_all(&self, verdict: Verdict, after: Self, r: Result<(), Error>) -> bool {
        r is Ok
    }

    fn pre_add_all(&mut self, _testcase: &Testcase<I>, _interest: Interest) -> (r: Result<(), Error>) {
        Ok(())
    }

    fn post_add_all(&mut self, _verdict: Verdict) -> (r: Result<(), Error>) {
        Ok(())
    }
}

/// What the fuzzer knows of a stored testcase: how many executions were
/// done when it was found, and whether it is an objective.
#[derive(Debug, Clone, Copy, PartialEq, Eq, Structural, Default)]
pub struct TestcaseMetadata {
    /// The number of executions done when the testcase was found.
    pub executions: u64,
    /// Whether the testcase is an objective.
    pub objective: bool,
}

/// The metadata of `id` in `records`: that of the last record of `id`, or
/// no executions and no objective when there is none.
pub open spec fn spec_metadata_of(records: Seq<(TestcaseId, TestcaseMetadata)>, id: TestcaseId) -> TestcaseMetadata
    decreases records.len(),
{
    if records.len() == 0 {
        TestcaseMetadata { executions: 0, objective: false }
    } else if records.last().0 == id {
        records.last().1
    } else {
        spec_metadata_of(records.drop_last(), id)
    }
}

/// Replacing the last record of `id` gives `id` the new metadata and
/// leaves the other ids as they were.
proof fn lemma_metadata_update(
    records: Seq<(TestcaseId, TestcaseMetadata)>,
    k: int,
    id: TestcaseId,
    md: TestcaseMetadata,
)
    requires
        0 <= k < records.len(),
        records[k].0 == id,
        forall|j: int| k < j < records.len() ==> records[j].0 != id,
    ensures
        forall|x: TestcaseId|
            #[trigger] spec_metadata_of(records.update(k, (id, md)), x) == if x == id {
                md
            } else {
                spec_metadata_of(records, x)
            },
    decreases records.len(),
{
    let updated = records.update(k, (id, md));
    if k < records.len() - 1 {
        lemma_metadata_update(records.drop_last(), k, id, md);
        assert(updated.drop_last() =~= records.drop_last().update(k, (id, md)));
        assert(updated.last() == records.last());
        assert forall|x: TestcaseId|
            #[trigger] spec_metadata_of(updated, x) == if x == id {
                md
            } else {
                spec_metadata_of(records, x)
            } by {
            assert(spec_metadata_of(records.drop_last().update(k, (id, md)), x) == if x == id {
                md
            } else {
                spec_metadata_of(records.drop_last(), x)
            });
        }
    } else {
        assert(updated.drop_last() =~= records.drop_last());
        assert(updated.last() == (id, md));
        assert forall|x: TestcaseId|
            #[trigger] spec_metadata_of(updated, x) == if x == id {
                md
            } else {
                spec_metadata_of(records, x)
            } by {
        }
    }
}

/// The statistics of a fuzzer: how many testcases went to the corpus and
/// to the objectives, when the last one was found, and the metadata of the
/// stored testcases.
#[derive(Debug)]
pub struct FuzzerStats {
    corpus: u64,
    objective: u64,
    last_found: Option<Instant>,
    records: Vec<(TestcaseId, TestcaseMetadata)>,
}

impl FuzzerStats {
    /// The number of testcases added to the corpus.
    pub closed spec fn spec_corpus(&self) -> u64 {
        self.corpus
    }

    /// The number of testcases added to the objectives.
    pub closed spec fn spec_objective(&self) -> u64 {
        self.objective
    }

    /// When the last testcase was found, if one was.
    pub closed spec fn spec_last_found(&self) -> Option<Instant> {
        self.last_found
    }

    /// The metadata of the testcase `id`.
    pub closed spec fn spec_metadata(&self, id: TestcaseId) -> TestcaseMetadata {
        spec_metadata_of(self.records@, id)
    }

    /// No testcase found yet.
    pub fn new() -> (r: Self)
        ensures
            r.spec_corpus() == 0,
            r.spec_objective() == 0,
            r.spec_last_found() is None,
            forall|id: TestcaseId| #[trigger] r.spec_metadata(id) == (TestcaseMetadata { executions: 0, objective: false }),
    {
        FuzzerStats { corpus: 0, objective: 0, last_found: None, records: Vec::new() }
    }

    /// The number of testcases added to the corpus.
    pub fn corpus(&self) -> (r: u64)
        ensures
            r == self.spec_corpus(),
    {
        self.corpus
    }

    /// The number of testcases added to the objectives.
    pub fn objective(&self) -> (r: u64)
        ensures
            r == self.spec_objective(),
    {
        self.objective
    }

    /// When the last testcase was found, if one was.
    pub fn last_found(&self) -> (r: Option<Instant>)
        ensures
            r == self.spec_last_found(),
    {
        self.last_found
    }

    /// The metadata of the testcase `id`.
    pub fn metadata(&self, id: TestcaseId) -> (r: TestcaseMetadata)
        ensures
            r == self.spec_metadata(id),
    {
        match self.position(id) {
            Some(k) => self.records[k].1,
            None => TestcaseMetadata { executions: 0, objective: false },
        }
    }

    /// The position of the last record of `id`, if any.
    fn position(&self, id: TestcaseId) -> (r: Option<usize>)
        ensures
            r is None ==> self.spec_metadata(id) == (TestcaseMetadata { executions: 0, objective: false })
                && forall|j: int| 0 <= j < self.records@.len() ==> self.records@[j].0 != id,
            r matches Some(k) ==> {
                &&& k < self.records@.len()
                &&& self.records@[k as int].0 == id
                &&& forall|j: int| k < j < self.records@.len() ==> self.records@[j].0 != id
                &&& self.spec_metadata(id) == self.records@[k as int].1
            },
    {
        let mut i: usize = self.records.len();
        assert(self.records@.take(i as int) =~= self.records@);
        while i > 0
            invariant
                0 <= i <= self.records@.len(),
                forall|j: int| i <= j < self.records@.len() ==> self.records@[j].0 != id,
                spec_metadata_of(self.records@.take(i as int), id) == self.spec_metadata(id),
            decreases i,
        {
            proof {
                assert(self.records@.take(i as int).drop_last() =~= self.records@.take(i - 1));
            }
            if self.records[i - 1].0 == id {
                return Some(i - 1);
            }
            i = i - 1;
        }
        proof {
            assert(self.records@.take(0) =~= Seq::<(TestcaseId, TestcaseMetadata)>::empty());
        }
        None
    }

    /// Replaces the metadata of `id`.
    fn set_metadata(&mut self, id: TestcaseId, md: TestcaseMetadata)
        ensures
            forall|x: TestcaseId|
                #[trigger] final(self).spec_metadata(x) == if x == id {
                    md
                } else {
                    old(self).spec_metadata(x)
                },
            final(self).spec_corpus() == old(self).spec_corpus(),
            final(self).spec_objective() == old(self).spec_objective(),
            final(self).spec_last_found() == old(self).spec_last_found(),
    {
        match self.position(id) {
            Some(k) => {
                proof {
                    lemma_metadata_update(self.records@, k as int, id, md);
                }
                self.records.set(k, (id, md));
            },
            None => {
                let ghost before = self.records@;
                self.records.push((id, md));
                proof {
                    assert(self.records@.drop_last() =~= before);
                }
            },
        }
    }

    /// Records the number of executions done when `id` was found.
    pub fn set_executions(&mut self, id: TestcaseId, executions: u64)
        ensures
            forall|x: TestcaseId|
                #[trigger] final(self).spec_metadata(x) == if x == id {
                    TestcaseMetadata { executions, objective: old(self).spec_metadata(id).objective }
                } else {
                    old(self).spec_metadata(x)
                },
            final(self).spec_corpus() == old(self).spec_corpus(),
            final(self).spec_objective() == old(self).spec_objective(),
            final(self).spec_last_found() == old(self).spec_last_found(),
    {
        let md = self.metadata(id);
        self.set_metadata(id, TestcaseMetadata { executions, objective: md.objective });
    }

    /// Marks `id` as an objective.
    pub fn found_objective(&mut self, id: TestcaseId)
        ensures
            forall|x: TestcaseId|
                #[trigger] final(self).spec_metadata(x) == if x == id {
                    TestcaseMetadata { executions: old(self).spec_metadata(id).executions, objective: true }
                } else {
                    old(self).spec_metadata(x)
                },
            final(self).spec_corpus() == old(self).spec_corpus(),
            final(self).spec_objective() == old(self).spec_objective(),
            final(self).spec_last_found() == old(self).spec_last_found(),
    {
        let md = self.metadata(id);
        self.set_metadata(id, TestcaseMetadata { executions: md.executions, objective: true });
    }

    /// Counts a testcase added to the corpus, or to the objectives, found now.
    pub fn count_found(&mut self, objective: bool)
        requires
            objective ==> old(self).spec_objective() < u64::MAX,
            !objective ==> old(self).spec_corpus() < u64::MAX,
        ensures
            final(self).spec_corpus() == old(self).spec_corpus() + if objective {
                0int
            } else {
                1int
            },
            final(self).spec_objective() == old(self).spec_objective() + if objective {
                1int
            } else {
                0int
            },
            final(self).spec_last_found() is Some,
            forall|x: TestcaseId| #[trigger] final(self).spec_metadata(x) == old(self).spec_metadata(x),
    {
        self.last_found = Some(instant_now());
        if objective {
            self.objective = self.objective + 1;
        } else {
            self.corpus = self.corpus + 1;
        }
    }
}

/// A fuzzer that does nothing.
#[derive(Debug, Clone, Copy)]
pub struct NopFuzzer;

impl NopFuzzer {
    /// Creates a new [`NopFuzzer`].
    pub fn new() -> (r: NopFuzzer) {
        NopFuzzer
    }
}

impl Default for NopFuzzer {
    fn default() -> (r: Self) {
        NopFuzzer
    }
}

} // verus!
