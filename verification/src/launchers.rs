//! Launchers start a fuzzing session: they gather the controller, the
//! monitor and the groups of workers, and check that none is missing.
use core::time::Duration;
use vstd::prelude::*;
use vstd::string::StrSliceExecFns;
use crate::common::decimal_string_u64;
use crate::controllers::{spec_group_workers, GroupId, WorkerId, WorkerRegistry};
use crate::error::Error;
use crate::monitors::SimpleMonitor;
use crate::paths::{path_has_file_name, path_has_parent_dir, spec_path_has_file_name, spec_path_has_parent_dir};

verus! {

/// Where a worker works: its name and its working directory, relative to
/// the session's root directory unless absolute.
#[derive(Debug, Clone)]
pub struct WorkerLayout {
    name: String,
    workdir: String,
}

/// Why a layout is refused, if it is: an empty name, a working directory
/// that names no directory, or one that climbs up with `..`.
pub open spec fn spec_layout_error(name: Seq<char>, workdir: Seq<char>) -> Option<Seq<char>> {
    if name.len() == 0 {
        Some("Group name must not be empty"@)
    } else if workdir.len() == 0 || !spec_path_has_file_name(workdir) {
        Some("Worker workdir must identify a directory"@)
    } else if spec_path_has_parent_dir(workdir) {
        Some("Worker workdir must not contain '..'. Use Absolute paths instead."@)
    } else {
        None
    }
}

impl WorkerLayout {
    /// The name.
    pub closed spec fn spec_name(&self) -> Seq<char> {
        self.name@
    }

    /// The working directory.
    pub closed spec fn spec_workdir(&self) -> Seq<char> {
        self.workdir@
    }

    /// A layout for a worker named `name` working in `workdir`.
    pub fn new(name: &str, workdir: &str) -> (r: Result<Self, Error>)
        ensures
            match spec_layout_error(name@, workdir@) {
                Some(m) => r matches Err(Error::IllegalArgument(msg)) && msg@ == m,
                None => r matches Ok(l) && l.spec_name() == name@ && l.spec_workdir() == workdir@,
            },
    {
        if name.unicode_len() == 0 {
            return Err(Error::IllegalArgument("Group name must not be empty".to_string()));
        }
        if workdir.unicode_len() == 0 || !path_has_file_name(workdir) {
            return Err(
                Error::IllegalArgument("Worker workdir must identify a directory".to_string()),
            );
        }
        if path_has_parent_dir(workdir) {
            return Err(
                Error::IllegalArgument(
                    "Worker workdir must not contain '..'. Use Absolute paths instead.".to_string(),
                ),
            );
        }
        Ok(WorkerLayout { name: name.to_string(), workdir: workdir.to_string() })
    }

    /// A flat layout: the name and the working directory are the same.
    pub fn flat(name: &str) -> (r: Result<Self, Error>)
        ensures
            match spec_layout_error(name@, name@) {
                Some(m) => r matches Err(Error::IllegalArgument(msg)) && msg@ == m,
                None => r matches Ok(l) && l.spec_name() == name@ && l.spec_workdir() == name@,
            },
    {
        Self::new(name, name)
    }

    /// The name.
    pub fn name(&self) -> (r: &str)
        ensures
            r@ == self.spec_name(),
    {
        self.name.as_str()
    }

    /// The working directory, relative to the root directory unless absolute.
    pub fn workdir(&self) -> (r: &str)
        ensures
            r@ == self.spec_workdir(),
    {
        self.workdir.as_str()
    }
}

/// A group waiting to be registered, with its configuration.
#[derive(Debug)]
pub struct PendingGroup<C, G> {
    /// The group.
    pub group: G,
    /// How the group is configured.
    pub config: C,
}

impl<C, G> PendingGroup<C, G> {
    /// A group waiting to be registered with `config`.
    pub fn new(group: G, config: C) -> (r: Self)
        ensures
            r.group == group,
            r.config == config,
    {
        PendingGroup { group, config }
    }
}

impl<C, G> PendingGroup<C, G> {
    /// Splits off the configuration, once the group's workers are registered
    /// under `group_id`: the configuration, and the group with its identity.
    pub fn configure(self, group_id: GroupId) -> (r: (C, ConfiguredGroup<G>))
        ensures
            r.0 == self.config,
            r.1.spec_group() == self.group,
            r.1.spec_group_id() == group_id,
    {
        (self.config, ConfiguredGroup { group: self.group, group_id })
    }
}

/// A group whose workers are registered, with the identity of the group.
#[derive(Debug)]
pub struct ConfiguredGroup<G> {
    group: G,
    group_id: GroupId,
}

impl<G> ConfiguredGroup<G> {
    /// The group.
    pub closed spec fn spec_group(&self) -> G {
        self.group
    }

    /// The identity of the group.
    pub closed spec fn spec_group_id(&self) -> GroupId {
        self.group_id
    }

    /// The group.
    pub fn group(&self) -> (r: &G)
        ensures
            *r == self.spec_group(),
    {
        &self.group
    }

    /// The identity of the group.
    pub fn group_id(&self) -> (r: GroupId)
        ensures
            r == self.spec_group_id(),
    {
        self.group_id
    }

    /// Hands out the group with its workers, to start an instance for each:
    /// refused as the registry refuses to hand out the group's workers.
    pub fn take_workers(self, registry: &mut WorkerRegistry) -> (r: Result<(G, Vec<WorkerId>), Error>)
        requires
            old(registry).wf(),
        ensures
            final(registry).wf(),
            final(registry).spec_descriptors() == old(registry).spec_descriptors(),
            final(registry).spec_finalized() == old(registry).spec_finalized(),
            ({
                let refused = !old(registry).spec_finalized() || old(registry).spec_taken_groups().contains(
                    self.spec_group_id(),
                ) || spec_group_workers(old(registry).spec_descriptors(), self.spec_group_id()).len()
                    == 0;
                &&& refused ==> (r matches Err(Error::IllegalArgument(_)))
                    && final(registry).spec_taken_groups() == old(registry).spec_taken_groups()
                &&& !refused ==> (r matches Ok((g, ws)) && g == self.spec_group() && ws@
                    == spec_group_workers(old(registry).spec_descriptors(), self.spec_group_id()))
                    && final(registry).spec_taken_groups() == old(registry).spec_taken_groups().push(
                    self.spec_group_id(),
                )
            }),
    {
        let workers = registry.take_group_workers(self.group_id)?;
        Ok((self.group, workers))
    }
}

/// The duration of `secs` seconds.
pub uninterp spec fn spec_duration_from_secs(secs: u64) -> Duration;

/// `Duration::from_secs`: the duration of `secs` whole seconds.
#[verifier::external_body]
fn duration_from_secs(secs: u64) -> (r: Duration)
    ensures
        r == spec_duration_from_secs(secs),
{
    Duration::from_secs(secs)
}

/// The default time between two refreshes of the monitor, in seconds.
pub const DEFAULT_MONITOR_REFRESH_SECS: u64 = 5;

/// The parts of a launcher: the controller, the monitor, the groups and
/// the time between two refreshes of the monitor.
#[derive(Debug)]
pub struct StdLauncherBuilder<CT, GT, MT> {
    controller: Option<CT>,
    monitor: Option<MT>,
    monitor_refresh: Duration,
    groups: GT,
}

/// The parts a launcher starts a session with.
#[derive(Debug)]
pub struct StdLauncher<CT, GT, MT> {
    /// The controller.
    pub controller: CT,
    /// The monitor.
    pub monitor: MT,
    /// The groups, the last added first.
    pub groups: GT,
    /// The time between two refreshes of the monitor.
    pub monitor_refresh: Duration,
}

impl<CT, GT, MT> StdLauncherBuilder<CT, GT, MT> {
    /// The controller, if set.
    pub closed spec fn spec_controller(&self) -> Option<CT> {
        self.controller
    }

    /// The monitor, if set.
    pub closed spec fn spec_monitor(&self) -> Option<MT> {
        self.monitor
    }

    /// The time between two refreshes of the monitor.
    pub closed spec fn spec_monitor_refresh(&self) -> Duration {
        self.monitor_refresh
    }

    /// The groups.
    pub closed spec fn spec_groups(&self) -> GT {
        self.groups
    }

    /// A builder with the given parts.
    pub fn from_parts(controller: Option<CT>, monitor: Option<MT>, monitor_refresh: Duration, groups: GT) -> (r: Self)
        ensures
            r.spec_controller() == controller,
            r.spec_monitor() == monitor,
            r.spec_monitor_refresh() == monitor_refresh,
            r.spec_groups() == groups,
    {
        StdLauncherBuilder { controller, monitor, monitor_refresh, groups }
    }

    /// Set the monitor.
    pub fn monitor<MT2>(self, monitor: MT2) -> (r: StdLauncherBuilder<CT, GT, MT2>)
        ensures
            r.spec_monitor() == Some(monitor),
            r.spec_controller() == self.spec_controller(),
            r.spec_monitor_refresh() == self.spec_monitor_refresh(),
            r.spec_groups() == self.spec_groups(),
    {
        StdLauncherBuilder {
            controller: self.controller,
            monitor: Some(monitor),
            monitor_refresh: self.monitor_refresh,
            groups: self.groups,
        }
    }

    /// Set the controller.
    pub fn controller<CT2>(self, controller: CT2) -> (r: StdLauncherBuilder<CT2, GT, MT>)
        ensures
            r.spec_controller() == Some(controller),
            r.spec_monitor() == self.spec_monitor(),
            r.spec_monitor_refresh() == self.spec_monitor_refresh(),
            r.spec_groups() == self.spec_groups(),
    {
        StdLauncherBuilder {
            controller: Some(controller),
            monitor: self.monitor,
            monitor_refresh: self.monitor_refresh,
            groups: self.groups,
        }
    }

    /// Set the time between two refreshes of the monitor.
    pub fn monitor_refresh(self, monitor_refresh: Duration) -> (r: StdLauncherBuilder<CT, GT, MT>)
        ensures
            r.spec_monitor_refresh() == monitor_refresh,
            r.spec_controller() == self.spec_controller(),
            r.spec_monitor() == self.spec_monitor(),
            r.spec_groups() == self.spec_groups(),
    {
        StdLauncherBuilder {
            controller: self.controller,
            monitor: self.monitor,
            monitor_refresh,
            groups: self.groups,
        }
    }

    /// Adds a group with the default configuration, in front of the groups
    /// added before.
    pub fn add_group<C: Default, G>(self, group: G) -> (r: StdLauncherBuilder<
        CT,
        (PendingGroup<C, G>, GT),
        MT,
    >)
        ensures
            r.spec_groups().0.group == group,
            r.spec_groups().1 == self.spec_groups(),
            r.spec_controller() == self.spec_controller(),
            r.spec_monitor() == self.spec_monitor(),
            r.spec_monitor_refresh() == self.spec_monitor_refresh(),
    {
        self.add_group_with(group, C::default())
    }

    /// Adds a group with its configuration, in front of the groups added before.
    pub fn add_group_with<C, G>(self, group: G, config: C) -> (r: StdLauncherBuilder<
        CT,
        (PendingGroup<C, G>, GT),
        MT,
    >)
        ensures
            r.spec_groups().0.group == group,
            r.spec_groups().0.config == config,
            r.spec_groups().1 == self.spec_groups(),
            r.spec_controller() == self.spec_controller(),
            r.spec_monitor() == self.spec_monitor(),
            r.spec_monitor_refresh() == self.spec_monitor_refresh(),
    {
        StdLauncherBuilder {
            controller: self.controller,
            monitor: self.monitor,
            monitor_refresh: self.monitor_refresh,
            groups: (PendingGroup::new(group, config), self.groups),
        }
    }

    /// Gathers the parts; refused when the monitor or the controller is missing
    /// (the monitor is looked at first).
    pub fn build(self) -> (r: Result<StdLauncher<CT, GT, MT>, Error>)
        ensures
            self.spec_monitor() is None ==> (r matches Err(Error::IllegalArgument(m)) && m@
                == "No monitor have been set."@),
            self.spec_monitor() is Some && self.spec_controller() is None ==> (r matches Err(
                Error::IllegalArgument(m),
            ) && m@ == "No global controller have been set."@),
            self.spec_monitor() is Some && self.spec_controller() is Some ==> (r matches Ok(l)
                && Some(l.monitor) == self.spec_monitor() && Some(l.controller)
                == self.spec_controller() && l.groups == self.spec_groups() && l.monitor_refresh
                == self.spec_monitor_refresh()),
    {
        let monitor = match self.monitor {
            Some(m) => m,
            None => {
                return Err(Error::IllegalArgument("No monitor have been set.".to_string()));
            },
        };
        let controller = match self.controller {
            Some(c) => c,
            None => {
                return Err(
                    Error::IllegalArgument("No global controller have been set.".to_string()),
                );
            },
        };
        Ok(StdLauncher {
            controller,
            monitor,
            groups: self.groups,
            monitor_refresh: self.monitor_refresh,
        })
    }
}

impl StdLauncher<(), (), ()> {
    /// A builder for setups of several groups: the controller, the monitor
    /// and every group are set explicitly; the monitor refreshes every
    /// [`DEFAULT_MONITOR_REFRESH_SECS`] seconds unless set otherwise.
    pub fn empty() -> (r: StdLauncherBuilder<(), (), SimpleMonitor>)
        ensures
            r.spec_controller() is None,
            r.spec_monitor() is None,
            r.spec_monitor_refresh() == spec_duration_from_secs(DEFAULT_MONITOR_REFRESH_SECS),
    {
        StdLauncherBuilder {
            controller: None,
            monitor: None,
            monitor_refresh: duration_from_secs(DEFAULT_MONITOR_REFRESH_SECS),
            groups: (),
        }
    }
}

/// How an instance ended badly.
#[derive(Debug, Clone, Copy, PartialEq, Eq, Structural)]
pub enum InstanceFailure {
    /// It exited with this code, which is not the code of a finished task.
    Exited(i32),
    /// It was killed by this signal.
    Signaled(i32),
}

/// The pids of a list of running instances.
pub open spec fn spec_pids<D>(active: Seq<(i32, D)>) -> Seq<i32> {
    active.map_values(|p: (i32, D)| p.0)
}

/// The running instances, each known by its pid, with the description of
/// its worker; and the failures seen so far.
#[derive(Debug)]
pub struct Instances<D> {
    active: Vec<(i32, D)>,
    failures: Vec<(i32, InstanceFailure)>,
}

impl<D> Instances<D> {
    /// The running instances.
    pub closed spec fn spec_active(&self) -> Seq<(i32, D)> {
        self.active@
    }

    /// The failures seen so far.
    pub closed spec fn spec_failures(&self) -> Seq<(i32, InstanceFailure)> {
        self.failures@
    }

    /// Each pid is running once.
    pub open spec fn wf(&self) -> bool {
        spec_pids(self.spec_active()).no_duplicates()
    }

    /// Whether `pid` is running.
    pub open spec fn spec_is_active(&self, pid: i32) -> bool {
        spec_pids(self.spec_active()).contains(pid)
    }

    /// No instance running, no failure.
    pub fn new() -> (r: Self)
        ensures
            r.wf(),
            r.spec_active() == Seq::<(i32, D)>::empty(),
            r.spec_failures() == Seq::<(i32, InstanceFailure)>::empty(),
    {
        let r = Instances { active: Vec::new(), failures: Vec::new() };
        assert(spec_pids(r.active@) =~= Seq::<i32>::empty());
        r
    }

    /// Whether no instance is running.
    pub fn is_empty(&self) -> (r: bool)
        ensures
            r == (self.spec_active().len() == 0),
    {
        self.active.len() == 0
    }

    /// Whether `pid` is running.
    pub fn is_active(&self, pid: i32) -> (r: bool)
        ensures
            r == self.spec_is_active(pid),
    {
        let mut i: usize = 0;
        while i < self.active.len()
            invariant
                0 <= i <= self.active@.len(),
                forall|k: int| 0 <= k < i ==> self.active@[k].0 != pid,
            decreases self.active@.len() - i,
        {
            if self.active[i].0 == pid {
                assert(spec_pids(self.active@)[i as int] == pid);
                return true;
            }
            i = i + 1;
        }
        proof {
            if spec_pids(self.active@).contains(pid) {
                let k = choose|k: int| 0 <= k < spec_pids(self.active@).len() && spec_pids(self.active@)[k] == pid;
                assert(self.active@[k].0 == pid);
            }
        }
        false
    }

    /// The position of `pid` among the running instances.
    fn position_of(&self, pid: i32) -> (r: usize)
        requires
            self.spec_is_active(pid),
        ensures
            r < self.spec_active().len(),
            self.spec_active()[r as int].0 == pid,
    {
        let mut i: usize = 0;
        while i < self.active.len()
            invariant
                0 <= i <= self.active@.len(),
                spec_pids(self.active@).contains(pid),
                forall|k: int| 0 <= k < i ==> self.active@[k].0 != pid,
            decreases self.active@.len() - i,
        {
            if self.active[i].0 == pid {
                return i;
            }
            i = i + 1;
        }
        proof {
            let k = choose|k: int| 0 <= k < spec_pids(self.active@).len() && spec_pids(self.active@)[k] == pid;
            assert(self.active@[k].0 == pid);
        }
        0
    }

    /// Records an instance that started with `pid`.
    pub fn insert(&mut self, pid: i32, desc: D)
        requires
            old(self).wf(),
            !old(self).spec_is_active(pid),
        ensures
            final(self).wf(),
            final(self).spec_active() == old(self).spec_active().push((pid, desc)),
            final(self).spec_failures() == old(self).spec_failures(),
    {
        let ghost before = self.active@;
        self.active.push((pid, desc));
        proof {
            assert(spec_pids(self.active@) =~= spec_pids(before).push(pid));
        }
    }

    /// Takes an instance that ended out of the running ones, giving back
    /// the description of its worker.
    pub fn retire(&mut self, pid: i32) -> (r: D)
        requires
            old(self).wf(),
            old(self).spec_is_active(pid),
        ensures
            final(self).wf(),
            !final(self).spec_is_active(pid),
            exists|k: int|
                0 <= k < old(self).spec_active().len() && old(self).spec_active()[k] == (pid, r)
                    && final(self).spec_active() == old(self).spec_active().remove(k),
            final(self).spec_failures() == old(self).spec_failures(),
    {
        let ghost before = self.active@;
        let i = self.position_of(pid);
        let (_, d) = self.active.remove(i);
        proof {
            let ks = i as int;
            assert(spec_pids(self.active@) =~= spec_pids(before).remove(ks));
            assert(spec_pids(before)[ks] == pid);
            assert forall|a: int, b: int|
                0 <= a < b < spec_pids(self.active@).len() implies spec_pids(self.active@)[a]
                != spec_pids(self.active@)[b] by {
                let a2 = if a < ks { a } else { a + 1 };
                let b2 = if b < ks { b } else { b + 1 };
                assert(spec_pids(before)[a2] != spec_pids(before)[b2]);
            }
            if spec_pids(self.active@).contains(pid) {
                let k = choose|k: int| 0 <= k < spec_pids(self.active@).len() && spec_pids(self.active@)[k] == pid;
                let k2 = if k < ks { k } else { k + 1 };
                assert(spec_pids(before)[k2] == pid);
            }
        }
        d
    }

    /// Records that the instance `pid` exited with `exit_code`: a failure
    /// unless the code is `end_code`, the code of a finished task. Gives
    /// back the description of its worker.
    pub fn on_exited(&mut self, pid: i32, exit_code: i32, end_code: i32) -> (r: D)
        requires
            old(self).wf(),
            old(self).spec_is_active(pid),
        ensures
            final(self).wf(),
            !final(self).spec_is_active(pid),
            exists|k: int|
                0 <= k < old(self).spec_active().len() && old(self).spec_active()[k] == (pid, r)
                    && final(self).spec_active() == old(self).spec_active().remove(k),
            final(self).spec_failures() == if exit_code == end_code {
                old(self).spec_failures()
            } else {
                old(self).spec_failures().push((pid, InstanceFailure::Exited(exit_code)))
            },
    {
        let d = self.retire(pid);
        if exit_code != end_code {
            self.failures.push((pid, InstanceFailure::Exited(exit_code)));
        }
        d
    }

    /// Records that the instance `pid` was killed by `signal`, a failure.
    /// Gives back the description of its worker.
    pub fn on_signaled(&mut self, pid: i32, signal: i32) -> (r: D)
        requires
            old(self).wf(),
            old(self).spec_is_active(pid),
        ensures
            final(self).wf(),
            !final(self).spec_is_active(pid),
            exists|k: int|
                0 <= k < old(self).spec_active().len() && old(self).spec_active()[k] == (pid, r)
                    && final(self).spec_active() == old(self).spec_active().remove(k),
            final(self).spec_failures() == old(self).spec_failures().push(
                (pid, InstanceFailure::Signaled(signal)),
            ),
    {
        let d = self.retire(pid);
        self.failures.push((pid, InstanceFailure::Signaled(signal)));
        d
    }

    /// The outcome once every instance ended: an error when some failed.
    pub fn outcome(&self) -> (r: Result<(), Error>)
        ensures
            r is Ok <==> self.spec_failures().len() == 0,
            r is Err ==> (r matches Err(Error::Runtime(_))),
    {
        if self.failures.len() == 0 {
            Ok(())
        } else {
            let mut m = decimal_string_u64(self.failures.len() as u64);
            m.append(" instances ended with errors");
            Err(Error::Runtime(m))
        }
    }

    /// The failures seen so far.
    pub fn failures(&self) -> (r: &[(i32, InstanceFailure)])
        ensures
            r@ == self.spec_failures(),
    {
        self.failures.as_slice()
    }
}

} // verus!
