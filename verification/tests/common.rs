use libaflmm::common::{decimal_string, decimal_string_u64, str_eq};
use libaflmm::controllers::{GroupId, NopController, NopWorker, SharingWorker, WorkerId};
use libaflmm::corpus::Testcase;
use libaflmm::inputs::BytesInput;
use libaflmm::Error;
use std::rc::Rc;
use libaflmm::inputs::ResizableMutator;

#[test]
fn decimal_notation() {
    assert_eq!(decimal_string(0), "0");
    assert_eq!(decimal_string(-45), "-45");
    assert_eq!(decimal_string(i64::MIN), "-9223372036854775808");
    assert_eq!(decimal_string_u64(u64::MAX), "18446744073709551615");
}

#[test]
fn string_equality() {
    assert!(str_eq("abc", "abc"));
    assert!(!str_eq("abc", "abd"));
    assert!(!str_eq("ab", "abc"));
}

#[test]
fn resizable_vectors() {
    let mut v: Vec<u8> = vec![1, 2, 3];
    ResizableMutator::resize(&mut v, 5, 9);
    assert_eq!(v, vec![1, 2, 3, 9, 9]);
    ResizableMutator::resize(&mut v, 2, 0);
    assert_eq!(v, vec![1, 2]);
    ResizableMutator::extend(&mut v, &[7, 8]);
    assert_eq!(v, vec![1, 2, 7, 8]);
    let d = ResizableMutator::drain(&mut v, 1, 3);
    assert_eq!(d, vec![2, 7]);
    assert_eq!(v, vec![1, 8]);
}

#[test]
fn nop_controller_has_no_workers() {
    let mut c = NopController::new();
    assert!(c.take_group_workers(GroupId(0)).unwrap().is_empty());
    assert!(c.shutdown(WorkerId(0)).is_ok());
}

#[test]
fn the_nop_worker_shares_nothing() {
    let mut w = NopWorker;
    let t = Testcase::new(Rc::new(BytesInput::new(vec![1])));
    assert!(SharingWorker::<BytesInput, ()>::send_testcase(&mut w, &t).is_ok());
    let got = w.recv_testcases(|_: ()| -> Result<BytesInput, Error> { Ok(BytesInput::new(vec![])) });
    assert!(got.unwrap().is_empty());
}
