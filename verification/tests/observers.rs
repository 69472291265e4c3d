use libaflmm::common::Named;
use libaflmm::executors::ExitKind;
use libaflmm::observers::cmplog::{parse_cmplog_entry, CmpLogEntry, CmpLogMetadata, CmpValues, CmplogBytes};
use libaflmm::observers::map::VarLenMapObserver;
use libaflmm::observers::map::hitcount_map::{classify_counts, count_class, count_class_16};
use libaflmm::observers::{
    HitcountsMapObserver, ListObserver, MapObserver, Observer, ObserversTuple, TimeObserver,
    VariableMapObserver,
};

#[test]
fn hit_counts_fall_into_buckets() {
    let expected: [(u8, u8); 12] = [
        (0, 0), (1, 1), (2, 2), (3, 4), (4, 8), (7, 8), (8, 16), (15, 16), (16, 32), (31, 32),
        (32, 64), (128, 128),
    ];
    for (hits, class) in expected {
        assert_eq!(count_class(hits), class);
    }
    assert_eq!(count_class(255), 128);
}

#[test]
fn hit_counts_of_two_bytes_at_once() {
    assert_eq!(count_class_16(0x0301), 0x0401);
    assert_eq!(count_class_16(0xff00), 0x8000);
}

#[test]
fn classify_a_whole_map() {
    let mut map = vec![0u8, 1, 3, 5, 200];
    classify_counts(&mut map);
    assert_eq!(map, vec![0, 1, 4, 8, 128]);
}

#[test]
fn hitcounts_observer_classifies_after_the_run() {
    let base = VariableMapObserver::owned("edges".to_string(), vec![0, 3, 9, 0]);
    let mut obs = HitcountsMapObserver::new(base);
    obs.post_exec(&ExitKind::Normal).unwrap();
    assert_eq!(obs.to_vec(), vec![0, 4, 16, 0]);
    assert_eq!(obs.count_bytes(), 2);
    assert_eq!(obs.name(), "edges");
    assert_eq!(obs.how_many_set(&vec![0, 1, 2]), 2);
}

#[test]
fn cmplog_bytes_keep_their_length() {
    let mut buf = [0u8; 32];
    buf[0] = 7;
    buf[1] = 9;
    let b = CmplogBytes::from_buf_and_len(buf, 2);
    assert_eq!(b.as_slice(), &[7u8, 9]);
    assert_eq!(b.len(), 2);
}

#[test]
fn cmp_values_as_u64_tuples() {
    assert!(CmpValues::U8((1, 2, true)).is_numeric());
    assert_eq!(CmpValues::U16((300, 2, false)).to_u64_tuple(), Some((300, 2, false)));
    let b = CmplogBytes::from_buf_and_len([0u8; 32], 0);
    assert!(!CmpValues::Bytes((b, b)).is_numeric());
    assert_eq!(CmpValues::Bytes((b, b)).to_u64_tuple(), None);
}

#[test]
fn cmplog_entries_are_truncated_to_their_size() {
    let e = CmpLogEntry::Instruction { shape: 0, v0: 0x1234, v1: 0xff01, aux: 1 };
    assert_eq!(parse_cmplog_entry(&e), Some(CmpValues::U8((0x34, 0x01, true))));
    let e = CmpLogEntry::Instruction { shape: 15, v0: 1, v1: 2, aux: 0 };
    assert_eq!(parse_cmplog_entry(&e), None);
}

fn ins(v0: u64, v1: u64) -> CmpLogEntry {
    CmpLogEntry::Instruction { shape: 7, v0, v1, aux: 0 }
}

#[test]
fn cmplog_metadata_drops_loop_counters() {
    let counter: Vec<CmpLogEntry> = (0..6).map(|i| ins(i, 100)).collect();
    let plain = vec![ins(5, 9), ins(77, 3)];
    let sites = vec![counter, plain, vec![]];
    let mut meta = CmpLogMetadata::new();
    meta.add_from(3, &sites);
    assert_eq!(
        meta.list,
        vec![CmpValues::U64((5, 9, false)), CmpValues::U64((77, 3, false))]
    );
}

#[test]
fn cmplog_metadata_keeps_short_sites() {
    let short: Vec<CmpLogEntry> = (0..4).map(|i| ins(i, 100)).collect();
    let mut meta = CmpLogMetadata::new();
    meta.add_from(1, &vec![short]);
    assert_eq!(meta.list.len(), 4);
}

#[test]
fn time_observer_measures_a_run() {
    let mut t = TimeObserver::new("time");
    assert_eq!(t.name(), "time");
    assert!(t.last_runtime().is_none());
    t.pre_exec().unwrap();
    assert!(t.last_runtime().is_none());
    t.post_exec(&ExitKind::Normal).unwrap();
    assert!(t.last_runtime().is_some());
}

#[test]
fn variable_map_observer_slices() {
    let obs = VariableMapObserver::owned("m".to_string(), vec![4, 0, 2]);
    assert_eq!(obs.map_slice(), &[4u8, 0, 2]);
    assert_eq!(obs.size(), 3);
}

#[test]
fn time_observer_clones_keep_the_runtime() {
    let mut t = TimeObserver::new("time");
    t.pre_exec().unwrap();
    t.post_exec(&ExitKind::Normal).unwrap();
    let c = t.clone();
    assert_eq!(c.last_runtime(), t.last_runtime());
}

#[test]
fn observer_tuples_run_every_hook_in_order() {
    let map = VariableMapObserver::owned("edges".to_string(), vec![3, 0, 7]);
    let list = ListObserver::new("values", vec![1_u64, 2]);
    let mut observers = (HitcountsMapObserver::new(map), (list, ()));
    observers.post_exec_all(&ExitKind::Normal).unwrap();
    assert_eq!(observers.0.to_vec(), vec![4, 0, 8]);
    assert_eq!(observers.1 .0.list(), &vec![1_u64, 2]);
    observers.pre_exec_all().unwrap();
    assert_eq!(observers.0.to_vec(), vec![0, 0, 0]);
    assert!(observers.1 .0.list().is_empty());
}
