use libaflmm::common::Named;
use libaflmm::corpus::TestcaseId;
use libaflmm::executors::ExitKind;
use libaflmm::feedbacks::novelty::{
    saturating_next_power_of_two_u16, saturating_next_power_of_two_u8, AllIsNovel,
    DifferentIsNovel, IsNovel, MaxReducer, MinReducer, NextPow2IsNovel, NopReducer,
    OneOrFilledIsNovel, OrReducer, Reducer,
};
use libaflmm::feedbacks::{
    BoolValueFeedback, ConstFeedback, CrashFeedback, EagerAndFeedback, EagerOrFeedback,
    FastAndFeedback, FastOrFeedback, Feedback, ListFeedback, MapFeedback, MapFeedbackMetadata,
    NewHashFeedback, StdObjectiveFeedback, TimeoutFeedback,
};
use libaflmm::observers::{ListObserver, TimeObserver, VariableMapObserver};

#[test]
fn test_map_is_novel() {
    // This should always hold
    assert!(AllIsNovel::is_novel(0_u8, 0));

    assert!(!NextPow2IsNovel::is_novel(0_u8, 0));
    assert!(NextPow2IsNovel::is_novel(0_u8, 1));
    assert!(!NextPow2IsNovel::is_novel(1_u8, 1));
    assert!(NextPow2IsNovel::is_novel(1_u8, 2));
    assert!(!NextPow2IsNovel::is_novel(2_u8, 2));
    assert!(!NextPow2IsNovel::is_novel(2_u8, 3));
    assert!(NextPow2IsNovel::is_novel(2_u8, 4));
    assert!(!NextPow2IsNovel::is_novel(128_u8, 128));
    assert!(!NextPow2IsNovel::is_novel(129_u8, 128));
    assert!(NextPow2IsNovel::is_novel(128_u8, 255));
    assert!(!NextPow2IsNovel::is_novel(255_u8, 128));
    assert!(NextPow2IsNovel::is_novel(254_u8, 255));
    assert!(!NextPow2IsNovel::is_novel(255_u8, 255));
}

#[test]
fn other_novelty_rules() {
    assert!(DifferentIsNovel::is_novel(1_u8, 2));
    assert!(!DifferentIsNovel::is_novel(2_u8, 2));
    assert!(OneOrFilledIsNovel::is_novel(0_u8, 1));
    assert!(OneOrFilledIsNovel::is_novel(0_u8, 255));
    assert!(!OneOrFilledIsNovel::is_novel(0_u8, 2));
}

#[test]
fn saturating_powers_of_two() {
    assert_eq!(saturating_next_power_of_two_u8(0), 1);
    assert_eq!(saturating_next_power_of_two_u8(5), 8);
    assert_eq!(saturating_next_power_of_two_u8(128), 128);
    assert_eq!(saturating_next_power_of_two_u8(129), 255);
    assert_eq!(saturating_next_power_of_two_u16(1000), 1024);
    assert_eq!(saturating_next_power_of_two_u16(40000), u16::MAX);
}

#[test]
fn reducers() {
    assert_eq!(MaxReducer::reduce(3_u8, 9), 9);
    assert_eq!(MinReducer::reduce(3_u8, 9), 3);
    assert_eq!(OrReducer::reduce(0b0101_u8, 0b0011), 0b0111);
    assert_eq!(NopReducer::reduce(3_u8, 9), 3);
}

fn observer(map: Vec<u8>) -> VariableMapObserver {
    VariableMapObserver::owned("edges".to_string(), map)
}

#[test]
fn map_feedback_finds_new_coverage_then_not_again() {
    let obs = observer(vec![0, 1, 0, 4]);
    let mut fb = MapFeedback::<DifferentIsNovel, MaxReducer>::new(&obs);
    assert_eq!(fb.name(), "edges");
    assert!(fb.is_interesting(&obs, &ExitKind::Normal).unwrap());
    fb.append_metadata(&obs, &TestcaseId(0)).unwrap();
    assert_eq!(fb.metadata().history_map, vec![0, 1, 0, 4]);
    assert_eq!(fb.metadata().num_covered_map_indexes, 2);
    assert_eq!(fb.coverage_stat(), Some(("coverage-edges".to_string(), "[2,4]".to_string())));
    assert!(!fb.is_interesting(&obs, &ExitKind::Normal).unwrap());
    let more = observer(vec![0, 1, 3, 4]);
    assert!(fb.is_interesting(&more, &ExitKind::Normal).unwrap());
}

#[test]
fn map_feedback_history_grows_with_the_map() {
    let meta = MapFeedbackMetadata::new(2);
    let mut fb = MapFeedback::<DifferentIsNovel, MaxReducer>::with_metadata("m".to_string(), meta);
    assert_eq!(fb.coverage_stat(), None);
    let obs = observer(vec![0, 0, 0, 7]);
    assert!(fb.is_interesting(&obs, &ExitKind::Normal).unwrap());
    fb.append_metadata(&obs, &TestcaseId(1)).unwrap();
    assert_eq!(fb.metadata().history_map.len(), 4);
    assert_eq!(fb.metadata().num_covered_map_indexes, 1);
    assert_eq!(fb.coverage_stat(), Some(("coverage-m".to_string(), "[1,4]".to_string())));
}

#[test]
fn map_feedback_metadata_reset() {
    let mut meta = MapFeedbackMetadata::with_history_map(vec![1, 2, 0], 0);
    assert_eq!(meta.num_covered_map_indexes, 2);
    meta.reset().unwrap();
    assert_eq!(meta.history_map, vec![0, 0, 0]);
    assert_eq!(meta.num_covered_map_indexes, 0);
}

#[test]
fn new_hash_feedback_keeps_novel_hashes_only() {
    let obs = TimeObserver::new("bt");
    let mut fb = NewHashFeedback::new(&obs);
    assert_eq!(fb.name(), "newhashfeedback_metadata_bt");
    assert!(fb.record_hash(Some(42)).unwrap());
    assert!(!fb.record_hash(Some(42)).unwrap());
    assert!(fb.metadata().hash_set().contains(42));
    assert!(!fb.record_hash(None).unwrap());
    assert!(fb.record_hash(Some(7)).unwrap());
}

#[test]
fn list_feedback_records_new_values() {
    let obs = ListObserver::new("cov", vec![1_u64, 2, 2]);
    let mut fb = ListFeedback::new(&obs);
    assert_eq!(fb.name(), "cov");
    assert!(fb.is_interesting(&obs, &ExitKind::Normal).unwrap());
    fb.append_metadata(&obs, &TestcaseId(0)).unwrap();
    assert!(fb.metadata().set.contains(1));
    assert!(fb.metadata().set.contains(2));
    assert!(!fb.is_interesting(&obs, &ExitKind::Normal).unwrap());
    let other = ListObserver::new("cov", vec![2_u64, 3]);
    assert!(fb.is_interesting(&other, &ExitKind::Normal).unwrap());
    assert!(fb.novelty().contains(3));
    assert!(!fb.novelty().contains(2));
}

#[test]
fn test_bool_value_feedback() {
    let mut bool_feedback = BoolValueFeedback::new("test_value");
    let exit_ok = ExitKind::Normal;

    let false_eval = bool_feedback.is_interesting(&Some(false), &exit_ok).unwrap();
    assert!(!false_eval);

    let true_eval = bool_feedback.is_interesting(&Some(true), &exit_ok).unwrap();
    assert!(true_eval);
}

#[test]
fn bool_value_feedback_without_observer_fails() {
    let mut fb = BoolValueFeedback::with_name("v");
    assert!(fb.is_interesting(&None, &ExitKind::Normal).unwrap_err().is_illegal_state());
}

fn verdicts<F: Feedback<()>>(mut make: impl FnMut(bool, bool) -> F) -> Vec<bool> {
    let mut out = Vec::new();
    for a in [false, true] {
        for b in [false, true] {
            out.push(make(a, b).is_interesting(&(), &ExitKind::Normal).unwrap());
        }
    }
    out
}

#[test]
fn fast_and_eager_combinations_agree() {
    let eager_or = verdicts(|a, b| EagerOrFeedback::new(ConstFeedback::new(a), ConstFeedback::new(b)));
    let fast_or = verdicts(|a, b| FastOrFeedback::new(ConstFeedback::new(a), ConstFeedback::new(b)));
    let eager_and =
        verdicts(|a, b| EagerAndFeedback::new(ConstFeedback::new(a), ConstFeedback::new(b)));
    let fast_and = verdicts(|a, b| FastAndFeedback::new(ConstFeedback::new(a), ConstFeedback::new(b)));
    assert_eq!(eager_or, vec![false, true, true, true]);
    assert_eq!(fast_or, eager_or);
    assert_eq!(eager_and, vec![false, false, false, true]);
    assert_eq!(fast_and, eager_and);
    let named = FastOrFeedback::new(ConstFeedback::new(true), ConstFeedback::new(false));
    assert_eq!(named.name(), "Fast OR (ConstFeedback,ConstFeedback)");
}

#[test]
fn objectives_are_crashes_or_timeouts() {
    let mut objective: StdObjectiveFeedback =
        FastOrFeedback::new(CrashFeedback::new(), TimeoutFeedback::new());
    assert!(objective.is_interesting(&(), &ExitKind::Crash).unwrap());
    assert!(objective.is_interesting(&(), &ExitKind::Timeout).unwrap());
    assert!(!objective.is_interesting(&(), &ExitKind::Normal).unwrap());
    assert!(!objective.is_interesting(&(), &ExitKind::Oom).unwrap());
}

#[test]
fn const_feedbacks_convert_from_and_to_booleans() {
    assert_eq!(ConstFeedback::from(true), ConstFeedback::True);
    assert_eq!(ConstFeedback::from(false), ConstFeedback::False);
    assert!(bool::from(ConstFeedback::True));
    assert!(!bool::from(ConstFeedback::False));
}
