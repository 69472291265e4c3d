use std::time::Duration;

use libaflmm::controllers::{GroupId, StdDescriptor, WorkerId, WorkerRegistry};
use libaflmm::launchers::{
    InstanceFailure, Instances, PendingGroup, StdLauncher, StdLauncherBuilder, WorkerLayout,
};
use libaflmm::Error;
use std::cell::RefCell;
use libaflmm::monitors::{format_hhmmss, SimpleMonitor};
use libaflmm::paths::path_has_parent_dir;

fn descriptor(reg: &mut WorkerRegistry, name: &str, dir: &str, core: Option<u64>, group: u32) -> Result<WorkerId, libaflmm::Error> {
    reg.check_can_register()?;
    reg.pin_core(core)?;
    let id = reg.allocate_worker_id();
    reg.validate_worker_layout(name, dir)?;
    reg.insert_worker(StdDescriptor {
        name: name.to_string(),
        root_dir: dir.to_string(),
        worker_id: id,
        core_id: core,
        group_id: GroupId(group),
    });
    Ok(id)
}

#[test]
fn workers_get_consecutive_ids_and_groups() {
    let mut reg = WorkerRegistry::new("/work".to_string());
    let a = descriptor(&mut reg, "a", "/work/a", Some(0), 1).unwrap();
    let b = descriptor(&mut reg, "b", "/work/b", Some(1), 2).unwrap();
    let c = descriptor(&mut reg, "c", "/work/c", None, 1).unwrap();
    assert_eq!((a.id(), b.id(), c.id()), (0, 1, 2));
    assert_eq!(reg.group_workers(GroupId(1)), vec![a, c]);
    assert!(reg.take_group_workers(GroupId(1)).unwrap_err().is_illegal_argument());
    reg.finalize_orchestration().unwrap();
    assert!(reg.finalize_orchestration().unwrap_err().is_illegal_state());
    assert_eq!(reg.take_group_workers(GroupId(1)).unwrap(), vec![a, c]);
    assert!(reg.take_group_workers(GroupId(1)).unwrap_err().is_illegal_argument());
    assert!(reg.take_group_workers(GroupId(9)).unwrap_err().is_illegal_argument());
    assert!(reg.check_can_register().unwrap_err().is_illegal_state());
}

#[test]
fn clashing_workers_are_refused() {
    let mut reg = WorkerRegistry::new("/work".to_string());
    descriptor(&mut reg, "a", "/work/a", Some(3), 0).unwrap();
    assert!(descriptor(&mut reg, "b", "/work/b", Some(3), 0).unwrap_err().is_illegal_argument());
    assert!(descriptor(&mut reg, "a", "/work/other", None, 0).unwrap_err().is_illegal_argument());
    assert!(descriptor(&mut reg, "d", "/work/a", None, 0).unwrap_err().is_illegal_argument());
    assert!(descriptor(&mut reg, "e", "/work/a/inner", None, 0).unwrap_err().is_illegal_argument());
    assert!(descriptor(&mut reg, "f", "/work", None, 0).unwrap_err().is_illegal_argument());
    assert!(descriptor(&mut reg, "g", "/work/ab", None, 0).is_ok());
    assert_eq!(reg.worker_descriptors().len(), 2);
}

#[test]
fn layouts_are_checked() {
    let l = WorkerLayout::new("w", "dir/w").unwrap();
    assert_eq!(l.name(), "w");
    assert_eq!(l.workdir(), "dir/w");
    assert!(WorkerLayout::new("", "x").unwrap_err().is_illegal_argument());
    assert!(WorkerLayout::new("w", "").unwrap_err().is_illegal_argument());
    assert!(WorkerLayout::new("w", "a/..").unwrap_err().is_illegal_argument());
    assert!(WorkerLayout::new("w", "../x").unwrap_err().is_illegal_argument());
    let f = WorkerLayout::flat("worker_3").unwrap();
    assert_eq!(f.workdir(), "worker_3");
}

#[test]
fn parent_dir_components() {
    assert!(path_has_parent_dir(".."));
    assert!(path_has_parent_dir("a/../b"));
    assert!(!path_has_parent_dir("a/..b/c"));
    assert!(!path_has_parent_dir("..."));
}

#[test]
fn layouts_resolve_under_the_root() {
    let reg = WorkerRegistry::new("/work".to_string());
    let rel = WorkerLayout::new("w", "w1").unwrap();
    assert_eq!(reg.resolve_worker_layout(&rel), "/work/w1");
    let abs = WorkerLayout::new("w", "/elsewhere/w1").unwrap();
    assert_eq!(reg.resolve_worker_layout(&abs), "/elsewhere/w1");
}

#[test]
fn launcher_builder_needs_a_monitor_and_a_controller() {
    let empty = StdLauncherBuilder::<u8, (), SimpleMonitor>::from_parts(None, None, Duration::from_secs(5), ());
    match empty.build() {
        Err(libaflmm::Error::IllegalArgument(m)) => assert_eq!(m, "No monitor have been set."),
        _ => panic!("expected a refusal"),
    }
    let no_ctrl = StdLauncherBuilder::<u8, (), SimpleMonitor>::from_parts(None, None, Duration::from_secs(5), ())
        .monitor(SimpleMonitor::new());
    match no_ctrl.build() {
        Err(libaflmm::Error::IllegalArgument(m)) => assert_eq!(m, "No global controller have been set."),
        _ => panic!("expected a refusal"),
    }
    let full = StdLauncherBuilder::<u8, (), SimpleMonitor>::from_parts(None, None, Duration::from_secs(5), ())
        .monitor(SimpleMonitor::new())
        .controller(7u8)
        .monitor_refresh(Duration::from_secs(1))
        .add_group_with("group", 3u32);
    let l = full.build().unwrap();
    assert_eq!(l.controller, 7);
    assert_eq!(l.monitor_refresh, Duration::from_secs(1));
    assert_eq!(l.groups.0.group, "group");
    assert_eq!(l.groups.0.config, 3);
}

#[test]
fn durations_print_as_hours_minutes_seconds() {
    assert_eq!(format_hhmmss(0), "00:00:00");
    assert_eq!(format_hhmmss(3661), "01:01:01");
    assert_eq!(format_hhmmss(360000), "100:00:00");
}

#[test]
fn instances_are_retired_and_failures_counted() {
    let mut inst: Instances<&str> = Instances::new();
    inst.insert(10, "a");
    inst.insert(11, "b");
    inst.insert(12, "c");
    assert!(inst.is_active(11));
    assert_eq!(inst.on_exited(11, 100, 100), "b");
    assert!(!inst.is_active(11));
    assert!(inst.outcome().is_ok());
    assert_eq!(inst.on_exited(10, 1, 100), "a");
    assert_eq!(inst.on_signaled(12, 9), "c");
    assert!(inst.is_empty());
    assert_eq!(
        inst.failures(),
        &[(10, InstanceFailure::Exited(1)), (12, InstanceFailure::Signaled(9))]
    );
    match inst.outcome() {
        Err(libaflmm::Error::Runtime(m)) => assert_eq!(m, "2 instances ended with errors"),
        _ => panic!("expected failures"),
    }
}

fn numbered_layout(_g: GroupId, w: WorkerId) -> Result<WorkerLayout, Error> {
    WorkerLayout::new(&format!("worker_{}", w.id()), &format!("w{}", w.id()))
}

fn keep_path(p: String) -> Result<String, Error> {
    Ok(p)
}

#[test]
fn groups_register_one_worker_per_core() {
    let mut reg = WorkerRegistry::new("/s".to_string());
    let created = RefCell::new(Vec::new());
    let create = |d: String| -> Result<(), Error> {
        created.borrow_mut().push(d);
        Ok(())
    };
    let g = reg
        .register_group(GroupId(7), &[Some(1), None, Some(2)], numbered_layout, keep_path, &create)
        .unwrap();
    assert_eq!(g, GroupId(7));
    assert_eq!(*created.borrow(), vec!["/s/w0".to_string(), "/s/w1".to_string(), "/s/w2".to_string()]);
    let ds = reg.worker_descriptors();
    assert_eq!(ds.len(), 3);
    assert_eq!(ds[1].name, "worker_1");
    assert_eq!(ds[2].core_id, Some(2));
    assert_eq!(ds[2].group_id, GroupId(7));
    assert_eq!(reg.next_worker_id(), 3);
    assert!(reg
        .register_group(GroupId(8), &[Some(2)], numbered_layout, keep_path, &create)
        .unwrap_err()
        .is_illegal_argument());
    assert_eq!(reg.worker_descriptors().len(), 3);
    reg.finalize_orchestration().unwrap();
    assert!(reg
        .register_group(GroupId(9), &[None], numbered_layout, keep_path, &create)
        .unwrap_err()
        .is_illegal_state());
}

#[test]
fn a_failing_directory_stops_the_registration() {
    let mut reg = WorkerRegistry::new("/s".to_string());
    let refuse_second = |d: String| -> Result<(), Error> {
        if d.ends_with("w1") {
            Err(Error::IllegalArgument("exists".to_string()))
        } else {
            Ok(())
        }
    };
    let err = reg
        .register_group(GroupId(1), &[None, None, None], numbered_layout, keep_path, refuse_second)
        .unwrap_err();
    assert!(err.is_illegal_argument());
    assert_eq!(reg.worker_descriptors().len(), 1);
    assert_eq!(reg.worker_descriptors()[0].root_dir, "/s/w0");
}

#[test]
fn configured_groups_hand_out_their_workers() {
    let mut reg = WorkerRegistry::new("/s".to_string());
    reg.register_group(GroupId(3), &[None, None], numbered_layout, keep_path, |_d: String| Ok(()))
        .unwrap();
    let (config, configured) = PendingGroup::new("group", 42u8).configure(GroupId(3));
    assert_eq!(config, 42u8);
    assert_eq!(configured.group_id(), GroupId(3));
    assert_eq!(*configured.group(), "group");
    reg.finalize_orchestration().unwrap();
    let (group, workers) = configured.take_workers(&mut reg).unwrap();
    assert_eq!(group, "group");
    assert_eq!(workers, vec![WorkerId(0), WorkerId(1)]);
    let (_, again) = PendingGroup::new("group", 0u8).configure(GroupId(3));
    assert!(again.take_workers(&mut reg).unwrap_err().is_illegal_argument());
}

#[test]
fn an_empty_launcher_needs_its_parts() {
    let missing = StdLauncher::empty().build();
    assert!(missing.unwrap_err().is_illegal_argument());
    let launcher = StdLauncher::empty()
        .monitor(SimpleMonitor::new())
        .controller("controller")
        .add_group::<u8, _>("first")
        .add_group_with("second", 9u8)
        .build()
        .unwrap();
    assert_eq!(launcher.monitor_refresh, Duration::from_secs(5));
    assert_eq!(launcher.controller, "controller");
    let (second, (first, ())) = launcher.groups;
    assert_eq!((second.group, second.config), ("second", 9));
    assert_eq!((first.group, first.config), ("first", 0));
}
