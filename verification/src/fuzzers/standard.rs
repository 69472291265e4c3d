//! The standard fuzzer, for everyday use.
use std::collections::HashMap;
use std::collections::VecDeque;
use vstd::prelude::*;
use crate::corpus::collection::{Corpus, InMemoryCorpus, ObjectiveInMemoryCorpus};
use crate::corpus::schedulers::Scheduler;
use crate::corpus::store::has_id;
use crate::corpus::testcase::{spec_input_id, Testcase, TestcaseId};
use crate::error::Error;
use crate::executors::ExitKind;
use crate::feedbacks::Feedback;
use crate::controllers::SharingWorker;
use crate::fuzzers::{EvaluationResult, FuzzerHooksTuple, FuzzerStats, Interest, TestcaseMetadata, Verdict};
use crate::inputs::Input;

verus! {

broadcast use vstd::std_specs::hash::group_hash_axioms;

/// The interest of a run, given the verdict of the objective feedback and
/// that of the corpus feedback: objectives come first.
pub open spec fn spec_interest(objective: bool, feedback: bool) -> Interest {
    if objective {
        Interest::Objective
    } else if feedback {
        Interest::Corpus
    } else {
        Interest::Uninteresting
    }
}

/// The standard fuzzer: runs inputs through an executor, decides with two
/// feedbacks whether they are objectives or corpus entries, and stores them.
#[derive(Debug)]
pub struct StdFuzzer<E, F, H, OF> {
    executor: E,
    feedback: F,
    objective: OF,
    fuzzer_hooks: H,
    loading_stage: usize,
}

/// The builder of a [`StdFuzzer`].
#[derive(Debug)]
pub struct StdFuzzerBuilder<E, F, H, OF> {
    executor: E,
    feedback: F,
    objective_feedback: OF,
    hooks: H,
}

impl<E> StdFuzzerBuilder<E, (), (), ()> {
    /// Creates a new builder around `executor`, with no feedback and no hook.
    pub fn new(executor: E) -> (r: Self)
        ensures
            r.spec_executor() == executor,
    {
        StdFuzzerBuilder { executor, feedback: (), objective_feedback: (), hooks: () }
    }
}

impl<E, F, H, OF> StdFuzzerBuilder<E, F, H, OF> {
    /// The executor.
    pub closed spec fn spec_executor(&self) -> E {
        self.executor
    }

    /// The corpus feedback.
    pub closed spec fn spec_feedback(&self) -> F {
        self.feedback
    }

    /// The objective feedback.
    pub closed spec fn spec_objective(&self) -> OF {
        self.objective_feedback
    }

    /// The hooks.
    pub closed spec fn spec_hooks(&self) -> H {
        self.hooks
    }

    /// Sets the feedback deciding what goes to the corpus.
    pub fn feedback<F2>(self, feedback: F2) -> (r: StdFuzzerBuilder<E, F2, H, OF>)
        ensures
            r.spec_executor() == self.spec_executor(),
            r.spec_feedback() == feedback,
            r.spec_objective() == self.spec_objective(),
            r.spec_hooks() == self.spec_hooks(),
    {
        StdFuzzerBuilder {
            executor: self.executor,
            feedback,
            objective_feedback: self.objective_feedback,
            hooks: self.hooks,
        }
    }

    /// Sets the feedback deciding what is an objective (for example a crash).
    pub fn objective_feedback<OF2>(self, objective_feedback: OF2) -> (r: StdFuzzerBuilder<
        E,
        F,
        H,
        OF2,
    >)
        ensures
            r.spec_executor() == self.spec_executor(),
            r.spec_feedback() == self.spec_feedback(),
            r.spec_objective() == objective_feedback,
            r.spec_hooks() == self.spec_hooks(),
    {
        StdFuzzerBuilder {
            executor: self.executor,
            feedback: self.feedback,
            objective_feedback,
            hooks: self.hooks,
        }
    }

    /// Sets the executor.
    pub fn executor<E2>(self, executor: E2) -> (r: StdFuzzerBuilder<E2, F, H, OF>)
        ensures
            r.spec_executor() == executor,
            r.spec_feedback() == self.spec_feedback(),
            r.spec_objective() == self.spec_objective(),
            r.spec_hooks() == self.spec_hooks(),
    {
        StdFuzzerBuilder {
            executor,
            feedback: self.feedback,
            objective_feedback: self.objective_feedback,
            hooks: self.hooks,
        }
    }

    /// Sets the fuzzer hooks.
    pub fn fuzzer_hooks<H2>(self, fuzzer_hooks: H2) -> (r: StdFuzzerBuilder<E, F, H2, OF>)
        ensures
            r.spec_executor() == self.spec_executor(),
            r.spec_feedback() == self.spec_feedback(),
            r.spec_objective() == self.spec_objective(),
            r.spec_hooks() == fuzzer_hooks,
    {
        StdFuzzerBuilder {
            executor: self.executor,
            feedback: self.feedback,
            objective_feedback: self.objective_feedback,
            hooks: fuzzer_hooks,
        }
    }

    /// Builds the fuzzer.
    pub fn build(self) -> (r: StdFuzzer<E, F, H, OF>)
        ensures
            r.spec_executor() == self.spec_executor(),
            r.spec_feedback() == self.spec_feedback(),
            r.spec_objective() == self.spec_objective(),
            r.spec_hooks() == self.spec_hooks(),
            r.spec_loading_stage() == 0,
    {
        StdFuzzer {
            executor: self.executor,
            feedback: self.feedback,
            objective: self.objective_feedback,
            fuzzer_hooks: self.hooks,
            loading_stage: 0,
        }
    }
}

impl<E> StdFuzzer<E, (), (), ()> {
    /// Creates a new builder around `executor`.
    pub fn builder(executor: E) -> (r: StdFuzzerBuilder<E, (), (), ()>)
        ensures
            r.spec_executor() == executor,
    {
        StdFuzzerBuilder::new(executor)
    }
}

impl<E, F, H, OF> StdFuzzer<E, F, H, OF> {
    /// The executor.
    pub closed spec fn spec_executor(&self) -> E {
        self.executor
    }

    /// The corpus feedback.
    pub closed spec fn spec_feedback(&self) -> F {
        self.feedback
    }

    /// The objective feedback.
    pub closed spec fn spec_objective(&self) -> OF {
        self.objective
    }

    /// The hooks.
    pub closed spec fn spec_hooks(&self) -> H {
        self.fuzzer_hooks
    }

    /// The number of loads done so far.
    pub closed spec fn spec_loading_stage(&self) -> usize {
        self.loading_stage
    }

    /// The executor.
    pub fn executor(&self) -> (r: &E)
        ensures
            *r == self.spec_executor(),
    {
        &self.executor
    }

    /// The corpus feedback.
    pub fn feedback(&self) -> (r: &F)
        ensures
            *r == self.spec_feedback(),
    {
        &self.feedback
    }

    /// The objective feedback.
    pub fn objective(&self) -> (r: &OF)
        ensures
            *r == self.spec_objective(),
    {
        &self.objective
    }

    /// The number of loads done so far.
    pub fn loading_stage(&self) -> (r: usize)
        ensures
            r == self.spec_loading_stage(),
    {
        self.loading_stage
    }

    /// Decides the interest of a run: the objective feedback is asked first;
    /// only when the run is no objective is the corpus feedback asked.
    pub fn evaluate_execution<OT>(&mut self, observers: &OT, exit_kind: ExitKind) -> (r: Result<
        Interest,
        Error,
    >) where F: Feedback<OT>, OF: Feedback<OT>
        ensures
            ({
                let obj = old(self).spec_objective();
                let fb = old(self).spec_feedback();
                let is_obj = obj.spec_is_interesting(*observers, exit_kind);
                &&& r is Ok <==> obj.spec_evaluates(*observers, exit_kind) && (!is_obj
                    ==> fb.spec_evaluates(*observers, exit_kind))
                &&& r matches Ok(i) ==> i == spec_interest(
                    is_obj,
                    fb.spec_is_interesting(*observers, exit_kind),
                )
                &&& obj.spec_evaluation(*observers, exit_kind, final(self).spec_objective())
                &&& if obj.spec_evaluates(*observers, exit_kind) && !is_obj {
                    fb.spec_evaluation(*observers, exit_kind, final(self).spec_feedback())
                } else {
                    final(self).spec_feedback() == fb
                }
            }),
            final(self).spec_executor() == old(self).spec_executor(),
            final(self).spec_hooks() == old(self).spec_hooks(),
            final(self).spec_loading_stage() == old(self).spec_loading_stage(),
    {
        let is_solution = self.objective.is_interesting(observers, &exit_kind)?;
        if is_solution {
            Ok(Interest::Objective)
        } else {
            let corpus_worthy = self.feedback.is_interesting(observers, &exit_kind)?;
            if corpus_worthy {
                Ok(Interest::Corpus)
            } else {
                Ok(Interest::Uninteresting)
            }
        }
    }

    /// Evaluates a run and stores its input where the feedbacks say: an
    /// objective goes to the objective corpus, a corpus-worthy input to the
    /// corpus. A stored testcase goes through the fuzzer's hooks before it
    /// is added; a corpus entry is sent to the other workers first. Then
    /// the number of executions `executions` is recorded for it (and an
    /// objective is marked as such), the deciding feedback records what it
    /// learnt, the find is counted and timed, and the hooks run again with
    /// the verdict.
    pub fn post_execution<I: Input, SC: Scheduler, OT, W, WH>(
        &mut self,
        corpus: &mut InMemoryCorpus<I, SC>,
        objectives: &mut ObjectiveInMemoryCorpus<I>,
        worker: &mut W,
        stats: &mut FuzzerStats,
        observers: &OT,
        input: I,
        exit_kind: ExitKind,
        executions: u64,
    ) -> (r: Result<EvaluationResult, Error>) where
        F: Feedback<OT>,
        OF: Feedback<OT>,
        H: FuzzerHooksTuple<I>,
        W: SharingWorker<I, WH>,

        requires
            old(stats).spec_corpus() < u64::MAX,
            old(stats).spec_objective() < u64::MAX,
        ensures
            ({
                let obj = old(self).spec_objective();
                let fb = old(self).spec_feedback();
                let is_obj = obj.spec_is_interesting(*observers, exit_kind);
                let interest = spec_interest(is_obj, fb.spec_is_interesting(*observers, exit_kind));
                let id = spec_input_id(input);
                &&& (obj.spec_evaluates(*observers, exit_kind) && (!is_obj ==> fb.spec_evaluates(
                    *observers,
                    exit_kind,
                ))) ==> (r is Ok || interest !is Uninteresting)
                &&& r matches Ok(res) ==> {
                    &&& res.spec_exit_kind() == exit_kind
                    &&& interest is Objective ==> res.spec_verdict() == Verdict::Objective(id)
                        && has_id(final(objectives).spec_enabled(), id) && final(corpus).spec_enabled()
                        == old(corpus).spec_enabled()
                    &&& interest is Corpus ==> res.spec_verdict() == Verdict::Corpus(id) && has_id(
                        final(corpus).spec_enabled(),
                        id,
                    ) && final(objectives).spec_enabled() == old(objectives).spec_enabled()
                    &&& interest is Uninteresting ==> res.spec_verdict() == Verdict::Uninteresting
                        && final(corpus).spec_enabled() == old(corpus).spec_enabled()
                        && final(objectives).spec_enabled() == old(objectives).spec_enabled()
                    &&& interest is Objective ==> final(self).spec_feedback() == fb && exists|
                        evaluated: OF,
                        recorded: Result<(), Error>,
                    |
                        {
                            &&& recorded is Ok
                            &&& obj.spec_evaluation(*observers, exit_kind, evaluated)
                            &&& #[trigger] evaluated.spec_append_metadata(
                                *observers,
                                id,
                                final(self).spec_objective(),
                                recorded,
                            )
                        }
                    &&& interest is Corpus ==> obj.spec_evaluation(
                        *observers,
                        exit_kind,
                        final(self).spec_objective(),
                    ) && exists|evaluated: F, recorded: Result<(), Error>|
                        {
                            &&& recorded is Ok
                            &&& fb.spec_evaluation(*observers, exit_kind, evaluated)
                            &&& #[trigger] evaluated.spec_append_metadata(
                                *observers,
                                id,
                                final(self).spec_feedback(),
                                recorded,
                            )
                        }
                    &&& interest is Uninteresting ==> obj.spec_evaluation(
                        *observers,
                        exit_kind,
                        final(self).spec_objective(),
                    ) && fb.spec_evaluation(*observers, exit_kind, final(self).spec_feedback())
                    &&& interest is Uninteresting ==> final(self).spec_hooks() == old(self).spec_hooks()
                        && *final(worker) == *old(worker) && *final(stats) == *old(stats)
                    &&& interest !is Uninteresting ==> exists|
                        tc: Testcase<I>,
                        hooks: H,
                        pre: Result<(), Error>,
                        post: Result<(), Error>,
                    |
                        #![trigger old(self).spec_hooks().spec_pre_add_all(tc, interest, hooks, pre), hooks.spec_post_add_all(res.spec_verdict(), final(self).spec_hooks(), post)]
                        {
                            &&& tc.spec_input() == input
                            &&& tc.spec_id() == id
                            &&& pre is Ok
                            &&& post is Ok
                            &&& old(self).spec_hooks().spec_pre_add_all(tc, interest, hooks, pre)
                            &&& hooks.spec_post_add_all(
                                res.spec_verdict(),
                                final(self).spec_hooks(),
                                post,
                            )
                            &&& interest is Corpus ==> exists|sent: Result<(), Error>|
                                sent is Ok && #[trigger] old(worker).spec_send_testcase(
                                    tc,
                                    *final(worker),
                                    sent,
                                )
                        }
                    &&& interest is Objective ==> *final(worker) == *old(worker)
                    &&& interest !is Uninteresting ==> {
                        &&& final(stats).spec_last_found() is Some
                        &&& final(stats).spec_corpus() == old(stats).spec_corpus() + if interest is Corpus {
                            1int
                        } else {
                            0int
                        }
                        &&& final(stats).spec_objective() == old(stats).spec_objective() + if interest is Objective {
                            1int
                        } else {
                            0int
                        }
                        &&& forall|x: TestcaseId|
                            #[trigger] final(stats).spec_metadata(x) == if x == id {
                                TestcaseMetadata {
                                    executions,
                                    objective: interest is Objective || old(stats).spec_metadata(id).objective,
                                }
                            } else {
                                old(stats).spec_metadata(x)
                            }
                    }
                }
            }),
            final(self).spec_executor() == old(self).spec_executor(),
            final(self).spec_loading_stage() == old(self).spec_loading_stage(),
    {
        let interest = self.evaluate_execution(observers, exit_kind)?;
        let verdict = match interest {
            Interest::Objective => {
                let testcase = Testcase::new(std::rc::Rc::new(input));
                let ghost tc = testcase;
                let pre = self.fuzzer_hooks.pre_add_all(&testcase, Interest::Objective);
                if let Err(e) = pre {
                    return Err(e);
                }
                let ghost hooks = self.fuzzer_hooks;
                let testcase_id = objectives.add_objective(testcase)?;
                proof {
                    if !has_id(old(objectives).spec_enabled(), testcase_id) {
                        assert(objectives.spec_enabled()[objectives.spec_enabled().len() - 1] == tc);
                    }
                }
                stats.set_executions(testcase_id, executions);
                stats.found_objective(testcase_id);
                let ghost evaluated = self.objective;
                let recorded = self.objective.append_metadata(observers, &testcase_id);
                if let Err(e) = recorded {
                    return Err(e);
                }
                stats.count_found(true);
                let verdict = Verdict::Objective(testcase_id);
                let post = self.fuzzer_hooks.post_add_all(verdict);
                if let Err(e) = post {
                    return Err(e);
                }
                assert(recorded is Ok && old(self).spec_objective().spec_evaluation(
                    *observers,
                    exit_kind,
                    evaluated,
                ) && evaluated.spec_append_metadata(
                    *observers,
                    testcase_id,
                    self.spec_objective(),
                    recorded,
                ));
                assert(tc.spec_input() == input && tc.spec_id() == testcase_id && pre is Ok
                    && post is Ok && old(self).spec_hooks().spec_pre_add_all(
                    tc,
                    Interest::Objective,
                    hooks,
                    pre,
                ) && hooks.spec_post_add_all(verdict, self.spec_hooks(), post));
                verdict
            },
            Interest::Corpus => {
                let testcase = Testcase::new(std::rc::Rc::new(input));
                let ghost tc = testcase;
                let pre = self.fuzzer_hooks.pre_add_all(&testcase, Interest::Corpus);
                if let Err(e) = pre {
                    return Err(e);
                }
                let ghost hooks = self.fuzzer_hooks;
                let sent = worker.send_testcase(&testcase);
                if let Err(e) = sent {
                    return Err(e);
                }
                let testcase_id = corpus.add(testcase)?;
                proof {
                    if !has_id(old(corpus).spec_enabled(), testcase_id) {
                        assert(corpus.spec_enabled()[corpus.spec_enabled().len() - 1] == tc);
                    }
                }
                stats.set_executions(testcase_id, executions);
                let ghost evaluated = self.feedback;
                let recorded = self.feedback.append_metadata(observers, &testcase_id);
                if let Err(e) = recorded {
                    return Err(e);
                }
                stats.count_found(false);
                let verdict = Verdict::Corpus(testcase_id);
                let post = self.fuzzer_hooks.post_add_all(verdict);
                if let Err(e) = post {
                    return Err(e);
                }
                assert(recorded is Ok && old(self).spec_feedback().spec_evaluation(
                    *observers,
                    exit_kind,
                    evaluated,
                ) && evaluated.spec_append_metadata(
                    *observers,
                    testcase_id,
                    self.spec_feedback(),
                    recorded,
                ));
                assert(sent is Ok && old(worker).spec_send_testcase(tc, *worker, sent));
                assert(tc.spec_input() == input && tc.spec_id() == testcase_id && pre is Ok
                    && post is Ok && old(self).spec_hooks().spec_pre_add_all(
                    tc,
                    Interest::Corpus,
                    hooks,
                    pre,
                ) && hooks.spec_post_add_all(verdict, self.spec_hooks(), post));
                verdict
            },
            Interest::Uninteresting => Verdict::Uninteresting,
        };
        Ok(EvaluationResult::new(exit_kind, verdict))
    }

    /// Counts one more load done.
    pub fn finish_load(&mut self)
        requires
            old(self).spec_loading_stage() < usize::MAX,
        ensures
            final(self).spec_loading_stage() == old(self).spec_loading_stage() + 1,
            final(self).spec_executor() == old(self).spec_executor(),
            final(self).spec_feedback() == old(self).spec_feedback(),
            final(self).spec_objective() == old(self).spec_objective(),
    {
        self.loading_stage = self.loading_stage + 1;
    }
}

/// An input of a load that ran, with the result it got.
#[derive(Debug)]
pub struct RanInput {
    /// The serialized input.
    pub input: Vec<u8>,
    /// Its evaluation.
    pub result: EvaluationResult,
}

/// A load: the inputs that still have to run, and those that ran, in load order.
#[derive(Debug)]
pub struct Loading {
    /// The inputs that still have to be run.
    pub inputs_to_run: VecDeque<Vec<u8>>,
    /// The inputs already run, with the result they got, in load order.
    pub ran_inputs: Vec<RanInput>,
}

/// What a load holds.
pub ghost struct LoadingView {
    /// The inputs that still have to run.
    pub to_run: Seq<Vec<u8>>,
    /// The inputs that ran.
    pub ran: Seq<RanInput>,
}

impl View for Loading {
    type V = LoadingView;

    open spec fn view(&self) -> LoadingView {
        LoadingView { to_run: self.inputs_to_run@, ran: self.ran_inputs@ }
    }
}

impl Loading {
    /// A load of the given inputs, none of which ran yet.
    pub fn new(inputs_to_run: VecDeque<Vec<u8>>) -> (r: Self)
        ensures
            r@.to_run == inputs_to_run@,
            r@.ran == Seq::<RanInput>::empty(),
    {
        Loading { inputs_to_run, ran_inputs: Vec::new() }
    }
}

/// The progress of the loads of a fuzzer, kept so that a restarted fuzzer
/// resumes where it stopped.
#[derive(Debug)]
pub struct LoaderMetadata {
    loads: HashMap<usize, Loading>,
    running_input: Option<(usize, Vec<u8>)>,
}

/// What the loader holds: the loads by id, and the input running now.
pub ghost struct LoaderView {
    /// The loads, by id.
    pub loads: Map<usize, LoadingView>,
    /// The input running now, with the id of its load.
    pub running: Option<(usize, Vec<u8>)>,
}

/// The loader after `next_input` on the load `load_id`, which exists.
pub open spec fn spec_next_input(v: LoaderView, load_id: usize) -> LoaderView {
    let l = v.loads[load_id];
    if l.to_run.len() == 0 {
        LoaderView { loads: v.loads, running: None }
    } else {
        LoaderView {
            loads: v.loads.insert(load_id, LoadingView { to_run: l.to_run.drop_first(), ran: l.ran }),
            running: Some((load_id, l.to_run[0])),
        }
    }
}

/// The loader after recording `result` for the running input, whose load exists.
pub open spec fn spec_record_result(v: LoaderView, result: EvaluationResult) -> LoaderView {
    match v.running {
        None => v,
        Some((load_id, input)) => {
            let l = v.loads[load_id];
            LoaderView {
                loads: v.loads.insert(
                    load_id,
                    LoadingView { to_run: l.to_run, ran: l.ran.push(RanInput { input, result }) },
                ),
                running: None,
            }
        },
    }
}

impl View for LoaderMetadata {
    type V = LoaderView;

    closed spec fn view(&self) -> LoaderView {
        LoaderView {
            loads: self.loads@.map_values(|l: Loading| l@),
            running: self.running_input,
        }
    }
}

impl LoaderMetadata {
    /// A loader with no load.
    pub fn new() -> (r: Self)
        ensures
            r@.loads == Map::<usize, LoadingView>::empty(),
            r@.running is None,
    {
        let r = LoaderMetadata { loads: HashMap::new(), running_input: None };
        assert(r@.loads =~= Map::<usize, LoadingView>::empty());
        r
    }

    /// Whether the load `load_id` was started.
    pub fn has_load(&self, load_id: usize) -> (r: bool)
        ensures
            r == self@.loads.contains_key(load_id),
    {
        self.loads.contains_key(&load_id)
    }

    /// Starts the load `load_id` with the given inputs, replacing a load of the same id.
    pub fn start_load(&mut self, load_id: usize, inputs_to_run: VecDeque<Vec<u8>>)
        ensures
            final(self)@.loads == old(self)@.loads.insert(
                load_id,
                LoadingView { to_run: inputs_to_run@, ran: Seq::empty() },
            ),
            final(self)@.running == old(self)@.running,
    {
        let loading = Loading::new(inputs_to_run);
        self.loads.insert(load_id, loading);
        assert(self@.loads =~= old(self)@.loads.insert(
            load_id,
            LoadingView { to_run: inputs_to_run@, ran: Seq::empty() },
        ));
    }

    /// Takes the next input of the load `load_id`, which becomes the running
    /// input, and returns a copy of it. An input still marked as running is
    /// forgotten. Fails when the load is unknown.
    pub fn next_input(&mut self, load_id: usize) -> (r: Result<Option<Vec<u8>>, Error>)
        ensures
            r is Ok <==> old(self)@.loads.contains_key(load_id),
            r matches Err(e) ==> e is IllegalState,
            r is Err ==> final(self)@ == (LoaderView { loads: old(self)@.loads, running: None }),
            r is Ok ==> final(self)@ == spec_next_input(old(self)@, load_id),
            r matches Ok(o) ==> match o {
                Some(i) => i@ == old(self)@.loads[load_id].to_run[0]@,
                None => old(self)@.loads[load_id].to_run.len() == 0,
            },
    {
        self.running_input = None;
        match self.loads.remove(&load_id) {
            None => {
                proof {
                    assert(self@.loads =~= old(self)@.loads);
                }
                Err(Error::IllegalState("Unknown load".to_string()))
            },
            Some(mut loading) => {
                let ghost l = loading@;
                let next = loading.inputs_to_run.pop_front();
                self.loads.insert(load_id, loading);
                match next {
                    Some(input) => {
                        let copy = input.clone();
                        self.running_input = Some((load_id, input));
                        proof {
                            assert(l.to_run.drop_first() =~= loading@.to_run);
                            assert(self@.loads =~= old(self)@.loads.insert(
                                load_id,
                                LoadingView { to_run: l.to_run.drop_first(), ran: l.ran },
                            ));
                        }
                        Ok(Some(copy))
                    },
                    None => {
                        proof {
                            assert(self@.loads =~= old(self)@.loads);
                        }
                        Ok(None)
                    },
                }
            },
        }
    }

    /// Records the result of the running input in its load, which stops it
    /// running. Does nothing when no input is running; fails when its load is unknown.
    pub fn record_result(&mut self, result: EvaluationResult) -> (r: Result<(), Error>)
        ensures
            r is Ok <==> (old(self)@.running matches Some((id, _)) ==> old(self)@.loads.contains_key(id)),
            r matches Err(e) ==> e is IllegalState,
            r is Ok ==> final(self)@ == spec_record_result(old(self)@, result),
            r is Err ==> final(self)@ == (LoaderView { loads: old(self)@.loads, running: None }),
    {
        match self.running_input.take() {
            None => Ok(()),
            Some((load_id, input)) => match self.loads.remove(&load_id) {
                None => {
                    proof {
                        assert(self@.loads =~= old(self)@.loads);
                    }
                    Err(Error::IllegalState("Unknown load".to_string()))
                },
                Some(mut loading) => {
                    let ghost l = loading@;
                    loading.ran_inputs.push(RanInput { input, result });
                    self.loads.insert(load_id, loading);
                    proof {
                        assert(self@.loads =~= old(self)@.loads.insert(
                            load_id,
                            LoadingView { to_run: l.to_run, ran: l.ran.push(RanInput { input, result }) },
                        ));
                    }
                    Ok(())
                },
            },
        }
    }

    /// Takes out the inputs of the load `load_id` that ran, with their results.
    pub fn take_ran_inputs(&mut self, load_id: usize) -> (r: Result<Vec<RanInput>, Error>)
        ensures
            r is Ok <==> old(self)@.loads.contains_key(load_id),
            r matches Err(e) ==> e is IllegalState,
            r is Err ==> final(self)@ == old(self)@,
            r matches Ok(v) ==> v@ == old(self)@.loads[load_id].ran && final(self)@ == (LoaderView {
                loads: old(self)@.loads.insert(
                    load_id,
                    LoadingView { to_run: old(self)@.loads[load_id].to_run, ran: Seq::empty() },
                ),
                running: old(self)@.running,
            }),
    {
        match self.loads.remove(&load_id) {
            None => {
                proof {
                    assert(self@.loads =~= old(self)@.loads);
                }
                Err(Error::IllegalState("Unknown load".to_string()))
            },
            Some(mut loading) => {
                let mut ran: Vec<RanInput> = Vec::new();
                std::mem::swap(&mut ran, &mut loading.ran_inputs);
                let ghost to_run = loading@.to_run;
                self.loads.insert(load_id, loading);
                proof {
                    assert(self@.loads =~= old(self)@.loads.insert(
                        load_id,
                        LoadingView { to_run, ran: Seq::empty() },
                    ));
                }
                Ok(ran)
            },
        }
    }
}

/// Running the next input of a load and recording its result moves that
/// input from the front of the inputs to run to the end of the inputs that
/// ran, with its result.
pub proof fn lemma_load_step(v: LoaderView, load_id: usize, result: EvaluationResult)
    requires
        v.loads.contains_key(load_id),
        v.loads[load_id].to_run.len() > 0,
    ensures
        ({
            let after = spec_record_result(spec_next_input(v, load_id), result);
            let l = v.loads[load_id];
            &&& after.running is None
            &&& after.loads.contains_key(load_id)
            &&& after.loads[load_id].to_run == l.to_run.drop_first()
            &&& after.loads[load_id].ran == l.ran.push(RanInput { input: l.to_run[0], result })
            &&& forall|k: usize| k != load_id ==> #[trigger] after.loads.contains_key(k)
                == v.loads.contains_key(k) && (v.loads.contains_key(k) ==> after.loads[k]
                == v.loads[k])
        }),
{
}

} // verus!
