use libaflmm::executors::forkserver::{
    afl_debug_setting, check_input_location, check_shm_env, checked_map_size, memlimit_bytes,
    target_envs, target_program, exit_kind_of_status, report_error_and_exit, target_bytes, wexitstatus,
    wifsignaled, wifstopped, ForkserverRunState, Handshake, HandshakeAction, HandshakeStage,
    FS_NEW_OPT_AUTODTCT, FS_NEW_OPT_MAPSIZE, FS_NEW_OPT_SHDMEM_FUZZ, FS_NEW_VERSION_MAGIC_BASE,
};
use libaflmm::executors::ExitKind;
use libaflmm::mutators::Tokens;
use libaflmm::Error;

const HELLO_V1: i32 = (FS_NEW_VERSION_MAGIC_BASE + 1) as i32;

#[test]
fn plain_handshake() {
    let mut h = Handshake::new(false, Some(65536), None);
    assert_eq!(h.on_status(HELLO_V1).unwrap(), HandshakeAction::WriteCtl(!HELLO_V1));
    assert_eq!(h.stage(), HandshakeStage::Options);
    assert_eq!(h.on_status(0).unwrap(), HandshakeAction::ReadStatus);
    assert_eq!(h.stage(), HandshakeStage::Confirm);
    assert_eq!(h.on_status(HELLO_V1).unwrap(), HandshakeAction::Finished);
    assert_eq!(h.stage(), HandshakeStage::Done);
    assert!(!h.uses_shmem_testcase());
    assert_eq!(h.map_size(), Some(65536));
}

#[test]
fn handshake_with_map_size_shmem_and_dictionary() {
    let mut tokens = Tokens::new();
    tokens.add_token(&b"old".to_vec());
    let mut h = Handshake::new(true, Some(65536), Some(tokens));
    h.on_status(HELLO_V1).unwrap();
    let opts = (FS_NEW_OPT_MAPSIZE | FS_NEW_OPT_SHDMEM_FUZZ | FS_NEW_OPT_AUTODTCT) as i32;
    assert_eq!(h.on_status(opts).unwrap(), HandshakeAction::ReadStatus);
    assert_eq!(h.stage(), HandshakeStage::MapSize);
    assert!(h.accepts_status(1000));
    assert_eq!(h.on_status(1000).unwrap(), HandshakeAction::ReadStatus);
    assert_eq!(h.map_size(), Some(1024));
    assert!(h.uses_shmem_testcase());
    assert_eq!(h.stage(), HandshakeStage::AutotokensSize);
    assert_eq!(h.on_status(5).unwrap(), HandshakeAction::ReadBytes(5));
    let dict = [1u8, b'x', 2, b'y', b'z'];
    assert!(h.accepts_bytes(&dict));
    assert_eq!(h.on_autotokens(&dict), HandshakeAction::ReadStatus);
    assert_eq!(h.on_status(HELLO_V1).unwrap(), HandshakeAction::Finished);
    let t = h.take_autotokens().unwrap();
    assert_eq!(t.tokens(), &[b"old".to_vec(), b"x".to_vec(), b"yz".to_vec()]);
}

#[test]
fn handshake_refuses_error_reports_and_bad_versions() {
    let mut h = Handshake::new(false, None, None);
    let report = (0xeffe_0000u32 | 4) as i32;
    match h.on_status(report) {
        Err(Error::Unknown(m)) => assert_eq!(m, "the fuzzing target reports that the shm_open() call failed."),
        other => panic!("unexpected {other:?}"),
    }
    let mut h = Handshake::new(false, None, None);
    assert!(h.on_status(FS_NEW_VERSION_MAGIC_BASE as i32).unwrap_err().is_illegal_state());
    let mut h = Handshake::new(false, None, None);
    assert!(h.on_status((FS_NEW_VERSION_MAGIC_BASE + 2) as i32).unwrap_err().is_illegal_state());
    assert_eq!(h.stage(), HandshakeStage::Done);
}

#[test]
fn handshake_refuses_shmem_without_a_map() {
    let mut h = Handshake::new(false, None, None);
    h.on_status(HELLO_V1).unwrap();
    assert!(h.on_status(FS_NEW_OPT_SHDMEM_FUZZ as i32).unwrap_err().is_illegal_state());
}

#[test]
fn handshake_refuses_a_bad_dictionary_size_and_a_changed_hello() {
    let mut h = Handshake::new(false, None, None);
    h.on_status(HELLO_V1).unwrap();
    h.on_status(FS_NEW_OPT_AUTODTCT as i32).unwrap();
    assert!(h.on_status(1).unwrap_err().is_illegal_state());
    let mut h = Handshake::new(false, None, None);
    h.on_status(HELLO_V1).unwrap();
    h.on_status(0).unwrap();
    match h.on_status(HELLO_V1 + 1) {
        Err(Error::Runtime(_)) => {}
        other => panic!("unexpected {other:?}"),
    }
}

#[test]
fn unknown_error_codes_are_reported_with_their_number() {
    match report_error_and_exit(12345) {
        Err(Error::Unknown(m)) => assert_eq!(m, "unknown error code 12345 from fuzzing target!"),
        other => panic!("unexpected {other:?}"),
    }
    match report_error_and_exit(-3) {
        Err(Error::Unknown(m)) => assert_eq!(m, "unknown error code -3 from fuzzing target!"),
        other => panic!("unexpected {other:?}"),
    }
}

#[test]
fn map_sizes_are_rounded_up_to_64() {
    assert_eq!(checked_map_size(64, Some(64)).unwrap(), 64);
    assert_eq!(checked_map_size(65, Some(200)).unwrap(), 128);
    assert!(checked_map_size(65, Some(100)).unwrap_err().is_illegal_state());
    assert!(checked_map_size(65, None).unwrap_err().is_illegal_state());
    assert_eq!(checked_map_size(-1, Some(10)).unwrap(), 0);
}

#[test]
fn inputs_are_cut_or_padded() {
    assert_eq!(target_bytes(&[1, 2, 3, 4], 1, 2), vec![1, 2]);
    assert_eq!(target_bytes(&[1], 3, 10), vec![1, 0, 0]);
    assert_eq!(target_bytes(&[1, 2], 1, 10), vec![1, 2]);
}

#[test]
fn wait_statuses() {
    assert!(wifsignaled(11));
    assert!(!wifsignaled(0));
    assert!(!wifsignaled(0x7f));
    assert!(wifstopped(0x137f));
    assert_eq!(wexitstatus(0x0300), 3);
    assert_eq!(exit_kind_of_status(11, None), ExitKind::Crash);
    assert_eq!(exit_kind_of_status(0, None), ExitKind::Normal);
    assert_eq!(exit_kind_of_status(0x0500, Some(5)), ExitKind::Crash);
    assert_eq!(exit_kind_of_status(0xff00, Some(-1)), ExitKind::Crash);
    assert_eq!(exit_kind_of_status(0x0500, Some(6)), ExitKind::Normal);
}

#[test]
fn run_state_through_a_run_and_a_timeout() {
    let mut s = ForkserverRunState::new();
    assert_eq!(s.begin_run(), 0);
    assert!(s.on_child_pid(0).is_err());
    s.on_child_pid(42).unwrap();
    assert_eq!(s.on_status(11, None), ExitKind::Crash);
    assert_eq!(s.child_pid(), None);
    s.on_child_pid(43).unwrap();
    assert_eq!(s.on_timeout(), Some(43));
    assert!(s.last_run_timed_out());
    assert_eq!(s.after_timeout_kill(), ExitKind::Timeout);
    assert_eq!(s.begin_run(), 1);
    assert!(!s.last_run_timed_out());
}

fn pairs(v: &[(&str, &str)]) -> Vec<(String, String)> {
    v.iter().map(|(a, b)| (a.to_string(), b.to_string())).collect()
}

#[test]
fn target_environment_follows_the_switches() {
    assert_eq!(
        target_envs(Some(65536), false, false, false).unwrap(),
        pairs(&[("AFL_MAP_SIZE", "65536"), ("LD_BIND_NOW", "1")])
    );
    assert_eq!(
        target_envs(Some(8), true, true, true).unwrap(),
        pairs(&[
            ("AFL_MAP_SIZE", "8"),
            ("__AFL_PERSISTENT", "1"),
            ("__AFL_DEFER_FORKSRV", "1"),
            ("AFL_GCC_ONLY_FRKSRV", "1"),
            ("AFL_LLVM_ONLY_FORKSERVER", "1"),
            ("LD_BIND_NOW", "1"),
        ])
    );
    match target_envs(None, true, false, false) {
        Err(Error::Unknown(m)) => assert!(m.starts_with("Coverage map size unknown")),
        other => panic!("unexpected {other:?}"),
    }
}

#[test]
fn afl_debug_must_be_a_bit() {
    assert_eq!(afl_debug_setting(None).unwrap(), false);
    assert_eq!(afl_debug_setting(Some("0")).unwrap(), false);
    assert_eq!(afl_debug_setting(Some("1")).unwrap(), true);
    assert!(afl_debug_setting(Some("yes")).unwrap_err().is_illegal_argument());
}

#[test]
fn memory_limits_are_in_mebibytes() {
    assert_eq!(memlimit_bytes(0), None);
    assert_eq!(memlimit_bytes(50), Some(50 * 1024 * 1024));
    assert_eq!(memlimit_bytes(1u64 << 44), Some(0));
}

#[test]
fn the_shared_memory_id_must_be_set() {
    assert!(check_shm_env(Some("42")).is_ok());
    match check_shm_env(None) {
        Err(Error::Unknown(m)) => assert!(m.starts_with("__AFL_SHM_ID not set")),
        other => panic!("unexpected {other:?}"),
    }
}

#[test]
fn the_builder_needs_a_program_and_no_argument_input() {
    assert!(check_input_location(false).is_ok());
    assert!(check_input_location(true).unwrap_err().is_illegal_argument());
    assert_eq!(target_program(Some("./target".to_string())).unwrap(), "./target");
    assert!(target_program(None).unwrap_err().is_illegal_argument());
}
