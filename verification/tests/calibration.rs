use libaflmm::controllers::{
    GenericCommand, GenericWorker, GroupId, SharingWorker, StdDescriptor, WorkerId,
};
use libaflmm::Error;
use libaflmm::corpus::{Testcase, TestcaseId};
use libaflmm::feedbacks::MapFeedbackMetadata;
use libaflmm::fuzzers::calibration::{
    mark_unstable_entries, next_stage_count, CalibrationHook, UnstableEntriesMetadata, CAL_STAGE_MAX,
};
use libaflmm::inputs::BytesInput;
use libaflmm::observers::VariableMapObserver;
use libaflmm::common::Named;
use std::rc::Rc;

#[test]
fn unstable_entries_are_marked_once() {
    let first = vec![1u8, 2, 0, 4];
    let mut meta = MapFeedbackMetadata::with_history_map(vec![1, 0, 0], 0);
    let mut unstable: Vec<usize> = Vec::new();
    mark_unstable_entries(&first, &vec![1, 3, 5, 4], &mut meta, &mut unstable);
    assert_eq!(unstable, vec![1, 2]);
    assert_eq!(meta.history_map, vec![1, 255, 255, 0]);
    assert_eq!(meta.num_covered_map_indexes, 3);
    mark_unstable_entries(&first, &vec![9, 3, 5, 4], &mut meta, &mut unstable);
    assert_eq!(unstable, vec![1, 2, 0]);
    assert_eq!(meta.history_map, vec![255, 255, 255, 0]);
    assert_eq!(meta.num_covered_map_indexes, 3);
}

#[test]
fn stage_count_grows_below_the_maximum_only() {
    assert_eq!(next_stage_count(4, true), 6);
    assert_eq!(next_stage_count(4, false), 4);
    assert_eq!(next_stage_count(CAL_STAGE_MAX, true), CAL_STAGE_MAX);
}

#[test]
fn unstable_metadata_records_entries() {
    let mut m = UnstableEntriesMetadata::new();
    m.record(&vec![3, 7, 3], 12);
    assert!(m.unstable_entries().contains(3));
    assert!(m.unstable_entries().contains(7));
    assert!(!m.unstable_entries().contains(4));
    assert_eq!(m.filled_entries_count(), 12);
}

#[test]
fn calibration_is_named_after_the_map() {
    let obs = VariableMapObserver::owned("edges".to_string(), vec![0; 4]);
    let hook = CalibrationHook::new(&obs);
    assert_eq!(hook.name(), "calibration_edges");
    assert_eq!(hook.map_name(), "edges");
    assert_eq!(hook.stage_max(), CAL_STAGE_MAX);
}

fn desc() -> StdDescriptor {
    StdDescriptor {
        name: "w".to_string(),
        root_dir: "/work/w".to_string(),
        worker_id: WorkerId(4),
        core_id: None,
        group_id: GroupId(0),
    }
}

#[test]
fn worker_polls_commands() {
    let mut w: GenericWorker<u32, String> = GenericWorker::new(desc(), true);
    assert!(!w.poll(vec![]));
    assert!(w.poll(vec![
        GenericCommand::Import { id: TestcaseId(1), handle: 10 },
        GenericCommand::Custom("hello".to_string()),
    ]));
    assert!(!w.should_shutdown());
    assert_eq!(w.recv_custom(), vec!["hello".to_string()]);
    assert!(w.poll(vec![GenericCommand::Shutdown]));
    assert!(w.should_shutdown());
    assert_eq!(w.id(), WorkerId(4));
}

#[test]
fn imports_are_taken_once_and_never_after_sending() {
    let mut w: GenericWorker<u32, ()> = GenericWorker::new(desc(), true);
    assert!(w.mark_sent(TestcaseId(5)));
    w.poll(vec![
        GenericCommand::Import { id: TestcaseId(1), handle: 10 },
        GenericCommand::Import { id: TestcaseId(5), handle: 50 },
        GenericCommand::Import { id: TestcaseId(1), handle: 11 },
        GenericCommand::Import { id: TestcaseId(2), handle: 20 },
    ]);
    let got = w.take_imports();
    assert_eq!(got, vec![(TestcaseId(1), 10), (TestcaseId(2), 20)]);
    w.poll(vec![GenericCommand::Import { id: TestcaseId(2), handle: 21 }]);
    assert!(w.take_imports().is_empty());
}

#[test]
fn a_worker_that_reports_nowhere_sends_nothing() {
    let mut w: GenericWorker<u32, ()> = GenericWorker::new(desc(), false);
    assert!(!w.mark_sent(TestcaseId(5)));
    w.poll(vec![GenericCommand::Import { id: TestcaseId(5), handle: 1 }]);
    assert_eq!(w.take_imports(), vec![(TestcaseId(5), 1)]);
}

#[test]
fn imported_testcases_must_match_their_id() {
    let t = Testcase::new(Rc::new(BytesInput::new(vec![1, 2])));
    assert!(GenericWorker::<u32, ()>::check_import(*t.id(), &t).is_ok());
    let other = TestcaseId(t.id().0.wrapping_add(1));
    assert!(GenericWorker::<u32, ()>::check_import(other, &t).unwrap_err().is_illegal_argument());
}

fn resolve_bytes(handle: Vec<u8>) -> Result<BytesInput, Error> {
    if handle.is_empty() {
        Err(Error::IllegalState("empty handle".to_string()))
    } else {
        Ok(BytesInput::new(handle))
    }
}

#[test]
fn shared_testcases_are_resolved_once() {
    let mut w: GenericWorker<Vec<u8>, ()> = GenericWorker::new(desc(), true);
    let a = Testcase::new(Rc::new(BytesInput::new(vec![1, 2])));
    let b = Testcase::new(Rc::new(BytesInput::new(vec![3])));
    assert!(w.send_testcase(&a).is_ok());
    assert_eq!(w.take_outbox(), vec![*a.id()]);
    assert!(w.take_outbox().is_empty());
    assert!(w.send_testcase(&a).is_ok());
    assert_eq!(w.take_outbox(), vec![*a.id()]);
    w.poll(vec![
        GenericCommand::Import { id: *a.id(), handle: vec![1, 2] },
        GenericCommand::Import { id: *b.id(), handle: vec![3] },
        GenericCommand::Import { id: *b.id(), handle: vec![3] },
    ]);
    let got = w.recv_testcases(resolve_bytes).unwrap();
    assert_eq!(got.len(), 1);
    assert_eq!(got[0].id(), b.id());
    assert_eq!(got[0].input().bytes(), &vec![3u8]);
    w.poll(vec![GenericCommand::Import { id: *b.id(), handle: vec![3] }]);
    assert!(w.recv_testcases(resolve_bytes).unwrap().is_empty());
}

#[test]
fn shared_testcases_with_a_wrong_id_or_a_bad_handle_are_refused() {
    let mut w: GenericWorker<Vec<u8>, ()> = GenericWorker::new(desc(), false);
    let a = Testcase::new(Rc::new(BytesInput::new(vec![1, 2])));
    assert!(w.send_testcase(&a).is_ok());
    assert!(w.take_outbox().is_empty());
    w.poll(vec![GenericCommand::Import { id: TestcaseId(a.id().0.wrapping_add(1)), handle: vec![1, 2] }]);
    assert!(w.recv_testcases(resolve_bytes).unwrap_err().is_illegal_argument());
    w.poll(vec![GenericCommand::Import { id: TestcaseId(7), handle: vec![] }]);
    assert!(w.recv_testcases(resolve_bytes).unwrap_err().is_illegal_state());
}
