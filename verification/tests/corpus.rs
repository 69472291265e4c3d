use std::rc::Rc;

use libaflmm::corpus::collection::{
    Corpus, InMemoryCorpus, ObjectiveInMemoryCorpus, OnDiskCorpus, ScheduledCorpus,
};
use libaflmm::corpus::schedulers::{NopScheduler, QueueScheduler, Scheduler};
use libaflmm::corpus::store::{InMemoryStore, OnDiskStore, OnDiskStoreBuilder, StorageResult};
use libaflmm::corpus::testcase::{Testcase, TestcaseFilenameFormat, TestcaseId};
use libaflmm::inputs::{BytesContext, BytesInput, InputContext};
use libaflmm::Error;

#[test]
fn test_queue_corpus() {
    let scheduler: QueueScheduler = QueueScheduler::new();
    let _context = BytesContext;

    let _corpus =
        OnDiskCorpus::<BytesInput, QueueScheduler>::new("/tmp".to_string(), scheduler).unwrap();

    let _objective =
        OnDiskCorpus::<BytesInput, NopScheduler>::new("/tmp".to_string(), NopScheduler).unwrap();
}

#[test]
fn test_queue_scheduler() {
    let scheduler = QueueScheduler::new();
    let _context = BytesContext;

    let mut q = InMemoryCorpus::<BytesInput, QueueScheduler>::new(scheduler);
    let t1 = BytesInput::new(vec![0_u8; 4]);
    let t2 = BytesInput::new(vec![1_u8; 4]);
    let t3 = BytesInput::new(vec![2_u8; 4]);

    let id1 = q.add(Testcase::new(Rc::new(t1))).unwrap();
    let id2 = q.add(Testcase::new(Rc::new(t2))).unwrap();
    let id3 = q.add(Testcase::new(Rc::new(t3))).unwrap();

    let next_id = q.scheduler_mut().next().unwrap();
    assert_eq!(next_id, Some(id1));

    let next_id = q.scheduler_mut().next().unwrap();
    assert_eq!(next_id, Some(id2));

    let next_id = q.scheduler_mut().next().unwrap();
    assert_eq!(next_id, Some(id3));
}

#[test]
fn queue_scheduler_wraps_around_after_the_last_testcase() {
    let mut q = InMemoryCorpus::<BytesInput, QueueScheduler>::new(QueueScheduler::new());
    let id1 = q.add(Testcase::new(Rc::new(BytesInput::new(vec![7_u8; 2])))).unwrap();
    let id2 = q.add(Testcase::new(Rc::new(BytesInput::new(vec![8_u8; 2])))).unwrap();
    assert_eq!(q.scheduler_mut().next().unwrap(), Some(id1));
    assert_eq!(q.scheduler_mut().next().unwrap(), Some(id2));
    assert_eq!(q.scheduler_mut().next().unwrap(), Some(id1));
}

#[test]
fn queue_scheduler_has_nothing_to_schedule_when_empty() {
    let mut s = QueueScheduler::new();
    assert_eq!(s.next().unwrap(), None);
    assert_eq!(s.current(), None);
}

#[test]
fn adding_the_same_input_twice_keeps_one_testcase() {
    let mut q = InMemoryCorpus::<BytesInput, QueueScheduler>::new(QueueScheduler::new());
    let a = q.add(Testcase::new(Rc::new(BytesInput::new(vec![1, 2, 3])))).unwrap();
    let b = q.add(Testcase::new(Rc::new(BytesInput::new(vec![1, 2, 3])))).unwrap();
    assert_eq!(a, b);
    assert_eq!(q.scheduler_mut().ids().len(), 1);
}

#[test]
fn in_memory_corpus_gets_back_what_was_added() {
    let mut q = InMemoryCorpus::<BytesInput, QueueScheduler>::new(QueueScheduler::new());
    let id = q.add(Testcase::new(Rc::new(BytesInput::new(vec![4, 5])))).unwrap();
    let t = q.get(&id).unwrap();
    assert_eq!(t.input().bytes(), &vec![4u8, 5]);
    assert_eq!(*t.id(), id);
    let missing = q.get(&TestcaseId(id.0.wrapping_add(1))).unwrap_err();
    assert!(missing.is_key_not_found());
}

#[test]
fn disabled_testcases_are_not_found_among_enabled_ones() {
    let mut q = InMemoryCorpus::<BytesInput, QueueScheduler>::new(QueueScheduler::new());
    let id = q.add(Testcase::new(Rc::new(BytesInput::new(vec![9])))).unwrap();
    q.disable(&id).unwrap();
    assert!(q.get(&id).unwrap_err().is_key_not_found());
    assert!(q.disable(&id).unwrap_err().is_key_not_found());
}

#[test]
fn objective_corpus_counts_its_objectives() {
    let mut o = ObjectiveInMemoryCorpus::<BytesInput>::new();
    o.add_objective(Testcase::new(Rc::new(BytesInput::new(vec![1])))).unwrap();
    o.add_objective(Testcase::new(Rc::new(BytesInput::new(vec![2])))).unwrap();
    o.add_objective(Testcase::new(Rc::new(BytesInput::new(vec![1])))).unwrap();
    assert_eq!(o.count(), 2);
}

#[test]
fn testcase_ids_follow_the_input_bytes() {
    let a = Testcase::new(Rc::new(BytesInput::new(vec![1, 2])));
    let b = Testcase::new(Rc::new(BytesInput::new(vec![1, 2])));
    let c = Testcase::new(Rc::new(BytesInput::new(vec![2, 1])));
    assert_eq!(a.id(), b.id());
    assert_ne!(a.id(), c.id());
    assert_eq!(a.input_len(), 2);
}

#[test]
fn default_filename_is_sixteen_hex_digits() {
    assert_eq!(TestcaseId(0x1f).default_filename(), "000000000000001f");
    assert_eq!(TestcaseId(u64::MAX).default_filename(), "ffffffffffffffff");
}

#[test]
fn filename_formats() {
    let id = TestcaseId(0xabc);
    assert_eq!(TestcaseFilenameFormat::Id.to_filename(&id), "0000000000000abc");
    assert_eq!(
        TestcaseFilenameFormat::Prefix("crash".to_string()).to_filename(&id),
        "crash-0000000000000abc"
    );
    assert_eq!(
        TestcaseFilenameFormat::Custom("name".to_string()).to_filename(&id),
        "name"
    );
}

#[test]
fn in_memory_store_reports_duplicates() {
    let mut s = InMemoryStore::<BytesInput>::new();
    let t = Testcase::new(Rc::new(BytesInput::new(vec![3])));
    let id = *t.id();
    match s.add_shared::<true>(t) {
        Ok(StorageResult::Stored(i)) => assert_eq!(i, id),
        _ => panic!("expected a stored testcase"),
    }
    let again = Testcase::new(Rc::new(BytesInput::new(vec![3])));
    match s.add_shared::<true>(again) {
        Ok(StorageResult::Duplicate(i)) => assert_eq!(i, id),
        _ => panic!("expected a duplicate"),
    }
    assert_eq!(s.count(), 1);
    assert_eq!(s.count_disabled(), 0);
    assert_eq!(s.count_all(), 1);
}

#[test]
fn on_disk_store_paths_and_counts() {
    let mut s = OnDiskStore::new("/tmp/corpus".to_string(), TestcaseFilenameFormat::Id);
    let r = s.add_shared::<true>(TestcaseId(1));
    assert_eq!(r.id(), TestcaseId(1));
    assert_eq!(s.count(), 1);
    assert_eq!(s.get_from::<true>(&TestcaseId(1)).unwrap(), "/tmp/corpus/0000000000000001");
    assert!(s.get_from::<false>(&TestcaseId(2)).unwrap_err().is_key_not_found());
    s.disable(&TestcaseId(1)).unwrap();
    assert_eq!(s.count(), 0);
    assert_eq!(s.count_disabled(), 1);
    assert!(s.get_from::<true>(&TestcaseId(1)).unwrap_err().is_key_not_found());
    assert!(s.get_from::<false>(&TestcaseId(1)).is_ok());
}

#[test]
fn on_disk_store_builder_needs_a_root() {
    let b = OnDiskStoreBuilder::new();
    assert!(b.build().unwrap_err().is_illegal_argument());
    match b.build() {
        Err(Error::IllegalArgument(m)) => assert_eq!(m, "Root directory not set"),
        _ => panic!("a builder without a root directory built a store"),
    }
    let b = OnDiskStoreBuilder::from_root("/tmp/x".to_string());
    assert_eq!(b.build().unwrap().root_path(), "/tmp/x");
}

#[test]
fn on_disk_corpus_hands_out_the_path_of_new_testcases() {
    let mut c = OnDiskCorpus::<BytesInput, QueueScheduler>::new("/tmp/q".to_string(), QueueScheduler::new()).unwrap();
    let t = Testcase::new(Rc::new(BytesInput::new(vec![5, 5])));
    let (id, path) = c.add_shared::<true>(&t);
    assert_eq!(id, *t.id());
    assert_eq!(path.unwrap(), format!("/tmp/q/{}", id.default_filename()));
    let (_, again) = c.add_shared::<true>(&t);
    assert!(again.is_none());
    assert_eq!(c.count(), 1);
}

#[test]
fn test_from_target_bytes() {
    let original_bytes = vec![0, 1, 2, 3];
    let input = BytesInput::from(original_bytes.clone());
    let mut nop = BytesContext;
    let res = nop.to_bytes(&input);
    assert_eq!(res.as_slice(), &original_bytes);
}

#[test]
fn a_new_in_memory_corpus_is_empty() {
    let c = InMemoryCorpus::<BytesInput, QueueScheduler>::new(QueueScheduler::new());
    assert_eq!(c.count(), 0);
    assert_eq!(c.count_disabled(), 0);
    assert_eq!(c.count_all(), 0);
    assert!(c.scheduler().ids().is_empty());
    assert_eq!(c.scheduler().current(), None);
}
