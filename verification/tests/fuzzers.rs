use std::rc::Rc;

use libaflmm::controllers::{GenericWorker, GroupId, NopWorker, StdDescriptor, WorkerId};
use libaflmm::corpus::collection::{Corpus, InMemoryCorpus, ObjectiveInMemoryCorpus};
use libaflmm::corpus::schedulers::QueueScheduler;
use libaflmm::corpus::testcase::{Testcase, TestcaseId};
use libaflmm::executors::ExitKind;
use libaflmm::feedbacks::{ConstFeedback, MapFeedbackMetadata};
use libaflmm::fuzzers::calibration::{CalibrationHook, UnstableEntriesMetadata, CAL_STAGE_MAX};
use libaflmm::fuzzers::{FuzzerHooksTuple, FuzzerStats, Interest, StdFuzzer, TestcaseMetadata, Verdict};
use libaflmm::inputs::BytesInput;
use libaflmm::observers::VariableMapObserver;
use libaflmm::Error;

fn desc() -> StdDescriptor {
    StdDescriptor {
        name: "w".to_string(),
        root_dir: "/work/w".to_string(),
        worker_id: WorkerId(1),
        core_id: None,
        group_id: GroupId(0),
    }
}

#[test]
fn a_corpus_find_is_stored_sent_counted_and_timed() {
    let mut fuzzer = StdFuzzer::builder(())
        .feedback(ConstFeedback::new(true))
        .objective_feedback(ConstFeedback::new(false))
        .build();
    let mut corpus = InMemoryCorpus::<BytesInput, QueueScheduler>::new(QueueScheduler::new());
    let mut objectives = ObjectiveInMemoryCorpus::<BytesInput>::new();
    let mut worker: GenericWorker<Vec<u8>, ()> = GenericWorker::new(desc(), true);
    let mut stats = FuzzerStats::new();
    let input = BytesInput::new(vec![1, 2, 3]);
    let id = *Testcase::new(Rc::new(input.clone())).id();
    let res = fuzzer
        .post_execution(&mut corpus, &mut objectives, &mut worker, &mut stats, &(), input, ExitKind::Normal, 7)
        .unwrap();
    assert_eq!(*res.vertict(), Verdict::Corpus(id));
    assert_eq!(res.exit_kind(), ExitKind::Normal);
    assert_eq!(corpus.count(), 1);
    assert_eq!(objectives.count(), 0);
    assert_eq!(worker.take_outbox(), vec![id]);
    assert_eq!(stats.corpus(), 1);
    assert_eq!(stats.objective(), 0);
    assert!(stats.last_found().is_some());
    assert_eq!(stats.metadata(id), TestcaseMetadata { executions: 7, objective: false });
}

#[test]
fn an_objective_is_stored_marked_and_not_sent() {
    let mut fuzzer = StdFuzzer::builder(())
        .feedback(ConstFeedback::new(true))
        .objective_feedback(ConstFeedback::new(true))
        .build();
    let mut corpus = InMemoryCorpus::<BytesInput, QueueScheduler>::new(QueueScheduler::new());
    let mut objectives = ObjectiveInMemoryCorpus::<BytesInput>::new();
    let mut worker: GenericWorker<Vec<u8>, ()> = GenericWorker::new(desc(), true);
    let mut stats = FuzzerStats::new();
    let input = BytesInput::new(vec![9]);
    let id = *Testcase::new(Rc::new(input.clone())).id();
    let res = fuzzer
        .post_execution(&mut corpus, &mut objectives, &mut worker, &mut stats, &(), input, ExitKind::Crash, 12)
        .unwrap();
    assert_eq!(*res.vertict(), Verdict::Objective(id));
    assert_eq!(corpus.count(), 0);
    assert_eq!(objectives.count(), 1);
    assert!(worker.take_outbox().is_empty());
    assert_eq!(stats.corpus(), 0);
    assert_eq!(stats.objective(), 1);
    assert!(stats.last_found().is_some());
    assert_eq!(stats.metadata(id), TestcaseMetadata { executions: 12, objective: true });
}

#[test]
fn an_uninteresting_run_changes_nothing() {
    let mut fuzzer = StdFuzzer::builder(())
        .feedback(ConstFeedback::new(false))
        .objective_feedback(ConstFeedback::new(false))
        .build();
    let mut corpus = InMemoryCorpus::<BytesInput, QueueScheduler>::new(QueueScheduler::new());
    let mut objectives = ObjectiveInMemoryCorpus::<BytesInput>::new();
    let mut worker = NopWorker;
    let mut stats = FuzzerStats::new();
    let input = BytesInput::new(vec![4, 4]);
    let id = *Testcase::new(Rc::new(input.clone())).id();
    let res = fuzzer
        .post_execution(&mut corpus, &mut objectives, &mut worker, &mut stats, &(), input, ExitKind::Normal, 3)
        .unwrap();
    assert_eq!(*res.vertict(), Verdict::Uninteresting);
    assert_eq!(corpus.count(), 0);
    assert_eq!(objectives.count(), 0);
    assert_eq!(stats.corpus(), 0);
    assert_eq!(stats.objective(), 0);
    assert!(stats.last_found().is_none());
    assert_eq!(stats.metadata(id), TestcaseMetadata { executions: 0, objective: false });
}

#[test]
fn stats_keep_the_last_metadata_of_each_testcase() {
    let mut stats = FuzzerStats::new();
    stats.set_executions(TestcaseId(5), 10);
    stats.set_executions(TestcaseId(6), 20);
    stats.found_objective(TestcaseId(5));
    stats.set_executions(TestcaseId(5), 11);
    assert_eq!(stats.metadata(TestcaseId(5)), TestcaseMetadata { executions: 11, objective: true });
    assert_eq!(stats.metadata(TestcaseId(6)), TestcaseMetadata { executions: 20, objective: false });
    assert_eq!(stats.metadata(TestcaseId(7)), TestcaseMetadata::default());
    assert!(stats.last_found().is_none());
    stats.count_found(false);
    stats.count_found(true);
    stats.count_found(false);
    assert_eq!(stats.corpus(), 2);
    assert_eq!(stats.objective(), 1);
    assert!(stats.last_found().is_some());
}

#[test]
fn no_hook_accepts_every_testcase() {
    let mut hooks = ();
    let t = Testcase::new(Rc::new(BytesInput::new(vec![1])));
    assert!(FuzzerHooksTuple::<BytesInput>::pre_add_all(&mut hooks, &t, Interest::Corpus).is_ok());
    assert!(FuzzerHooksTuple::<BytesInput>::post_add_all(&mut hooks, Verdict::Corpus(*t.id())).is_ok());
}

fn hook() -> CalibrationHook {
    let obs = VariableMapObserver::owned("edges".to_string(), vec![0; 4]);
    CalibrationHook::new(&obs)
}

#[test]
fn calibration_takes_the_filled_count_from_the_history_first() {
    let h = hook();
    let md = MapFeedbackMetadata::with_history_map(vec![1, 1, 0, 0], 0);
    let c = h.start(Some(&md), vec![1, 1, 0, 0], 3).unwrap();
    assert_eq!(c.filled(), 2);
    let c = h.start(None, vec![1, 1, 1, 0], 3).unwrap();
    assert_eq!(c.filled(), 3);
    assert_eq!(c.first_len(), 4);
    assert_eq!(c.iter(), CAL_STAGE_MAX);
    assert_eq!(c.unstable_count(), 0);
}

#[test]
fn a_stable_testcase_runs_the_planned_times_and_records_nothing() {
    let h = hook();
    let mut md = MapFeedbackMetadata::with_history_map(vec![0; 4], 0);
    let first = vec![1u8, 0, 2, 0];
    let mut c = h.start(None, first.clone(), 2).unwrap();
    let mut runs = 1;
    while c.needs_run() {
        c.on_run(&mut md, ExitKind::Normal, &first);
        runs += 1;
    }
    assert_eq!(runs, h.stage_max());
    assert_eq!(c.iter(), h.stage_max());
    let mut unstable = UnstableEntriesMetadata::new();
    assert!(!c.finish(&mut unstable));
    assert_eq!(unstable.filled_entries_count(), 0);
    assert!(!unstable.unstable_entries().contains(0));
}

#[test]
fn a_flaky_testcase_records_its_unstable_entries() {
    let h = hook();
    let mut md = MapFeedbackMetadata::with_history_map(vec![0; 4], 0);
    let mut c = h.start(None, vec![1u8, 0, 2, 0], 2).unwrap();
    c.on_run(&mut md, ExitKind::Timeout, &vec![9, 9, 9, 9]);
    assert_eq!(c.unstable_count(), 0);
    assert_eq!(md.history_map, vec![0, 0, 0, 0]);
    c.on_run(&mut md, ExitKind::Normal, &vec![1, 5, 2, 0]);
    assert_eq!(c.unstable_count(), 1);
    assert_eq!(c.iter(), h.stage_max());
    assert_eq!(md.history_map, vec![0, 255, 0, 0]);
    assert_eq!(md.num_covered_map_indexes, 1);
    c.on_run(&mut md, ExitKind::Normal, &vec![1, 5, 2, 0]);
    assert_eq!(c.unstable_count(), 1);
    assert_eq!(c.iter(), h.stage_max());
    let mut unstable = UnstableEntriesMetadata::new();
    assert!(c.finish(&mut unstable));
    assert!(unstable.unstable_entries().contains(1));
    assert!(!unstable.unstable_entries().contains(0));
    assert_eq!(unstable.filled_entries_count(), 2);
}

#[test]
fn a_map_count_too_large_for_the_machine_is_refused() {
    let h = hook();
    let r = h.start(None, vec![], u64::MAX);
    if (usize::MAX as u64) < u64::MAX {
        match r {
            Err(Error::IllegalState(m)) => assert!(m.starts_with("map's filled entry count (18446744073709551615)")),
            _ => panic!("the count was accepted"),
        }
    } else {
        assert_eq!(r.unwrap().filled(), usize::MAX);
    }
}
