//! The controller's book of workers: who they are, which core each is pinned
//! to, which group each belongs to, and where each works on disk.
//!
//! Creating directories and starting processes stays with the caller; the
//! registry decides whether a worker may be added and hands out identities.
use std::rc::Rc;
use vstd::prelude::*;
use crate::collections::U64Set;
use crate::common::str_eq;
use crate::corpus::testcase::{spec_input_id, Testcase, TestcaseId};
use crate::inputs::Input;
use crate::error::Error;
use crate::launchers::WorkerLayout;
use crate::paths::{
    path_eq,
    path_is_absolute,
    path_join,
    path_starts_with,
    spec_path_eq,
    spec_path_is_absolute,
    spec_path_join,
    spec_path_starts_with,
};

verus! {

/// The identity of a worker.
#[derive(Debug, Default, Clone, Copy, PartialEq, Eq, Structural, Hash, PartialOrd, Ord)]
pub struct WorkerId(pub u32);

impl WorkerId {
    /// The number of the worker.
    pub fn id(&self) -> (r: u32)
        ensures
            r == self.0,
    {
        self.0
    }
}

/// The identity of a group of workers.
#[derive(Debug, Default, Clone, Copy, PartialEq, Eq, Structural, Hash, PartialOrd, Ord)]
pub struct GroupId(pub u32);

/// What the controller knows of a worker.
#[derive(Debug, Clone)]
pub struct StdDescriptor {
    /// Name of the worker.
    pub name: String,
    /// The worker's working directory, absolute.
    pub root_dir: String,
    /// The worker's identity.
    pub worker_id: WorkerId,
    /// The core the worker is pinned to, if any.
    pub core_id: Option<u64>,
    /// The group of the worker.
    pub group_id: GroupId,
}

impl StdDescriptor {
    /// Name of the worker.
    pub fn name(&self) -> (r: &str)
        ensures
            r@ == self.name@,
    {
        self.name.as_str()
    }

    /// The worker's working directory.
    pub fn root_dir(&self) -> (r: &str)
        ensures
            r@ == self.root_dir@,
    {
        self.root_dir.as_str()
    }

    /// The worker's identity.
    pub fn worker_id(&self) -> (r: WorkerId)
        ensures
            r == self.worker_id,
    {
        self.worker_id
    }

    /// The core the worker is pinned to.
    pub fn core_id(&self) -> (r: Option<u64>)
        ensures
            r == self.core_id,
    {
        self.core_id
    }

    /// The group of the worker.
    pub fn group_id(&self) -> (r: GroupId)
        ensures
            r == self.group_id,
    {
        self.group_id
    }
}

/// The builder of a standard controller; its settings live in the program
/// that creates the session's directories.
#[derive(Debug, Clone, Copy)]
pub struct ControllerBuilder;

/// A controller without workers, for fuzzers that run alone.
#[derive(Debug, Clone, Copy)]
pub struct NopController;

impl NopController {
    /// A controller without workers.
    pub fn new() -> (r: Self) {
        NopController
    }

    /// The workers of a group: there are none.
    pub fn take_group_workers(&mut self, _group: GroupId) -> (r: Result<Vec<WorkerId>, Error>)
        ensures
            r matches Ok(ws) && ws@ == Seq::<WorkerId>::empty(),
    {
        Ok(Vec::new())
    }

    /// Asks a worker to stop: there is nothing to do.
    pub fn shutdown(&mut self, _worker: WorkerId) -> (r: Result<(), Error>)
        ensures
            r is Ok,
    {
        Ok(())
    }
}

/// Whether two working directories clash: the same directory, or one inside the other.
pub open spec fn spec_dirs_clash(a: Seq<char>, b: Seq<char>) -> bool {
    spec_path_eq(a, b) || spec_path_starts_with(a, b) || spec_path_starts_with(b, a)
}

/// Whether a worker named `name` working in `dir` clashes with a known worker.
pub open spec fn spec_clashes(d: StdDescriptor, name: Seq<char>, dir: Seq<char>) -> bool {
    d.name@ == name || spec_dirs_clash(d.root_dir@, dir)
}

/// The workers of `group`, in the order they were registered.
pub open spec fn spec_group_workers(ds: Seq<StdDescriptor>, group: GroupId) -> Seq<WorkerId>
    decreases ds.len(),
{
    if ds.len() == 0 {
        Seq::empty()
    } else {
        let rest = spec_group_workers(ds.drop_last(), group);
        if ds.last().group_id == group {
            rest.push(ds.last().worker_id)
        } else {
            rest
        }
    }
}

/// The cores pinned by a list of workers, in order: those of the pinned ones.
pub open spec fn spec_pinned(cores: Seq<Option<u64>>) -> Seq<u64>
    decreases cores.len(),
{
    if cores.len() == 0 {
        Seq::empty()
    } else {
        let rest = spec_pinned(cores.drop_last());
        match cores.last() {
            Some(c) => rest.push(c),
            None => rest,
        }
    }
}

/// The working directory of a worker whose layout names `workdir`, in a
/// session rooted at `root`: `workdir` itself when absolute, else `workdir`
/// under `root`.
pub open spec fn spec_resolved_workdir(root: Seq<char>, workdir: Seq<char>) -> Seq<char> {
    if spec_path_is_absolute(workdir) {
        workdir
    } else {
        spec_path_join(root, workdir)
    }
}

/// Whether `d` describes worker `id` of `group`, pinned to `core`, as
/// registering it in a session rooted at `root` gives it: `layout` gave its
/// layout and name, `absolute` made the layout's resolved directory the
/// worker's absolute directory, and `create` created that directory.
pub open spec fn spec_registered<L, A, C>(
    layout: L,
    absolute: A,
    create: C,
    root: Seq<char>,
    group: GroupId,
    id: WorkerId,
    core: Option<u64>,
    d: StdDescriptor,
) -> bool where
    L: Fn(GroupId, WorkerId) -> Result<WorkerLayout, Error>,
    A: Fn(String) -> Result<String, Error>,
    C: Fn(String) -> Result<(), Error>,
 {
    &&& d.worker_id == id
    &&& d.core_id == core
    &&& d.group_id == group
    &&& exists|created: Result<(), Error>| created is Ok && call_ensures(create, (d.root_dir,), created)
    &&& exists|lw: WorkerLayout, resolved: String|
        {
            &&& call_ensures(layout, (group, id), Ok(lw))
            &&& d.name@ == lw.spec_name()
            &&& resolved@ == spec_resolved_workdir(root, lw.spec_workdir())
            &&& call_ensures(absolute, (resolved,), Ok(d.root_dir))
        }
}

/// The book of workers of a controller.
#[derive(Debug)]
pub struct WorkerRegistry {
    root_dir: String,
    descriptors: Vec<StdDescriptor>,
    used_cores: Vec<u64>,
    worker_id_ctr: u32,
    finalized: bool,
    taken_groups: Vec<GroupId>,
}

impl WorkerRegistry {
    /// The root directory of the fuzzing session.
    pub closed spec fn spec_root_dir(&self) -> Seq<char> {
        self.root_dir@
    }

    /// The workers, in the order they were registered.
    pub closed spec fn spec_descriptors(&self) -> Seq<StdDescriptor> {
        self.descriptors@
    }

    /// The cores workers are pinned to.
    pub closed spec fn spec_used_cores(&self) -> Seq<u64> {
        self.used_cores@
    }

    /// The identity the next worker gets.
    pub closed spec fn spec_next_id(&self) -> u32 {
        self.worker_id_ctr
    }

    /// Whether every group has been registered.
    pub closed spec fn spec_finalized(&self) -> bool {
        self.finalized
    }

    /// The groups whose workers were handed out.
    pub closed spec fn spec_taken_groups(&self) -> Seq<GroupId> {
        self.taken_groups@
    }

    /// The book is consistent: identities, cores and names are each used
    /// once, and no two working directories clash.
    pub open spec fn wf(&self) -> bool {
        let ds = self.spec_descriptors();
        &&& self.spec_used_cores().no_duplicates()
        &&& forall|i: int| 0 <= i < ds.len() ==> (#[trigger] ds[i]).worker_id.0 < self.spec_next_id()
        &&& forall|i: int|
            0 <= i < ds.len() && (#[trigger] ds[i]).core_id is Some ==> self.spec_used_cores().contains(
                ds[i].core_id->0,
            )
        &&& forall|i: int, j: int|
            0 <= i < j < ds.len() ==> {
                &&& (#[trigger] ds[i]).worker_id != (#[trigger] ds[j]).worker_id
                &&& !spec_clashes(ds[i], ds[j].name@, ds[j].root_dir@)
                &&& (ds[i].core_id is Some ==> ds[i].core_id != ds[j].core_id)
            }
    }

    /// An empty book for a session rooted at `root_dir`.
    pub fn new(root_dir: String) -> (r: Self)
        ensures
            r.wf(),
            r.spec_root_dir() == root_dir@,
            r.spec_descriptors() == Seq::<StdDescriptor>::empty(),
            r.spec_used_cores() == Seq::<u64>::empty(),
            r.spec_next_id() == 0,
            !r.spec_finalized(),
            r.spec_taken_groups() == Seq::<GroupId>::empty(),
    {
        WorkerRegistry {
            root_dir,
            descriptors: Vec::new(),
            used_cores: Vec::new(),
            worker_id_ctr: 0,
            finalized: false,
            taken_groups: Vec::new(),
        }
    }

    /// The root directory of the fuzzing session.
    pub fn root_dir(&self) -> (r: &str)
        ensures
            r@ == self.spec_root_dir(),
    {
        self.root_dir.as_str()
    }

    /// The workers, in the order they were registered.
    pub fn worker_descriptors(&self) -> (r: &[StdDescriptor])
        ensures
            r@ == self.spec_descriptors(),
    {
        self.descriptors.as_slice()
    }

    /// The identity the next worker gets.
    pub fn next_worker_id(&self) -> (r: u32)
        ensures
            r == self.spec_next_id(),
    {
        self.worker_id_ctr
    }

    /// Whether every group has been registered.
    pub fn is_finalized(&self) -> (r: bool)
        ensures
            r == self.spec_finalized(),
    {
        self.finalized
    }

    /// Refuses to register a group once the registry is finalized.
    pub fn check_can_register(&self) -> (r: Result<(), Error>)
        ensures
            self.spec_finalized() <==> (r matches Err(Error::IllegalState(_))),
            !self.spec_finalized() <==> r is Ok,
    {
        if self.finalized {
            Err(
                Error::IllegalState(
                    "Trying to register a group in a finalized controller. This is not legal.".to_string(),
                ),
            )
        } else {
            Ok(())
        }
    }

    /// Pins a worker to `core`, refusing a core another worker is pinned to.
    pub fn pin_core(&mut self, core: Option<u64>) -> (r: Result<(), Error>)
        requires
            old(self).wf(),
        ensures
            final(self).wf(),
            final(self).spec_descriptors() == old(self).spec_descriptors(),
            final(self).spec_next_id() == old(self).spec_next_id(),
            final(self).spec_finalized() == old(self).spec_finalized(),
            final(self).spec_root_dir() == old(self).spec_root_dir(),
            final(self).spec_taken_groups() == old(self).spec_taken_groups(),
            match core {
                Some(c) => if old(self).spec_used_cores().contains(c) {
                    (r matches Err(Error::IllegalArgument(_))) && final(self).spec_used_cores()
                        == old(self).spec_used_cores()
                } else {
                    r is Ok && final(self).spec_used_cores() == old(self).spec_used_cores().push(c)
                },
                None => r is Ok && final(self).spec_used_cores() == old(self).spec_used_cores(),
            },
    {
        match core {
            Some(c) => {
                let mut i: usize = 0;
                while i < self.used_cores.len()
                    invariant
                        0 <= i <= self.used_cores@.len(),
                        *self == *old(self),
                        old(self).wf(),
                        core == Some(c),
                        forall|k: int| 0 <= k < i ==> self.used_cores@[k] != c,
                    decreases self.used_cores@.len() - i,
                {
                    if self.used_cores[i] == c {
                        assert(self.used_cores@.contains(c)) by {
                            assert(self.used_cores@[i as int] == c);
                        }
                        return Err(
                            Error::IllegalArgument(
                                "a core is getting pinned on by multiple workers. Use unpinned cores instead.".to_string(),
                            ),
                        );
                    }
                    i = i + 1;
                }
                let ghost old_cores = self.used_cores@;
                self.used_cores.push(c);
                proof {
                    assert(!old_cores.contains(c));
                    assert forall|a: int, b: int|
                        0 <= a < b < self.used_cores@.len() implies self.used_cores@[a]
                        != self.used_cores@[b] by {
                        if b == old_cores.len() {
                            assert(old_cores[a] != c);
                        }
                    }
                    let ds = self.descriptors@;
                    assert forall|k: int|
                        0 <= k < ds.len() && (#[trigger] ds[k]).core_id is Some implies self.used_cores@.contains(
                        ds[k].core_id->0,
                    ) by {
                        let w = choose|w: int| 0 <= w < old_cores.len() && old_cores[w] == ds[k].core_id->0;
                        assert(self.used_cores@[w] == ds[k].core_id->0);
                    }
                }
                Ok(())
            },
            None => Ok(()),
        }
    }

    /// Hands out the identity of the next worker.
    pub fn allocate_worker_id(&mut self) -> (r: WorkerId)
        requires
            old(self).wf(),
            old(self).spec_next_id() < u32::MAX,
        ensures
            final(self).wf(),
            r.0 == old(self).spec_next_id(),
            final(self).spec_next_id() == old(self).spec_next_id() + 1,
            final(self).spec_descriptors() == old(self).spec_descriptors(),
            final(self).spec_used_cores() == old(self).spec_used_cores(),
            final(self).spec_finalized() == old(self).spec_finalized(),
            final(self).spec_root_dir() == old(self).spec_root_dir(),
            final(self).spec_taken_groups() == old(self).spec_taken_groups(),
    {
        let id = WorkerId(self.worker_id_ctr);
        self.worker_id_ctr = self.worker_id_ctr + 1;
        id
    }

    /// The working directory of a worker laid out as `layout`: its workdir
    /// when absolute, else that workdir under the session's root directory.
    pub fn resolve_worker_layout(&self, layout: &WorkerLayout) -> (r: String)
        ensures
            r@ == spec_resolved_workdir(self.spec_root_dir(), layout.spec_workdir()),
    {
        let w = layout.workdir();
        if path_is_absolute(w) {
            w.to_string()
        } else {
            path_join(self.root_dir.as_str(), w)
        }
    }

    /// Checks that a worker named `name`, working in `dir`, clashes with no
    /// known worker: its name is not taken, and its directory is neither the
    /// directory of another worker nor inside one nor around one.
    pub fn validate_worker_layout(&self, name: &str, dir: &str) -> (r: Result<(), Error>)
        ensures
            r is Ok <==> forall|i: int|
                0 <= i < self.spec_descriptors().len() ==> !spec_clashes(
                    #[trigger] self.spec_descriptors()[i],
                    name@,
                    dir@,
                ),
            r is Err ==> (r matches Err(Error::IllegalArgument(_))),
    {
        let mut i: usize = 0;
        while i < self.descriptors.len()
            invariant
                0 <= i <= self.descriptors@.len(),
                forall|k: int|
                    0 <= k < i ==> !spec_clashes(#[trigger] self.descriptors@[k], name@, dir@),
            decreases self.descriptors@.len() - i,
        {
            let desc = &self.descriptors[i];
            if str_eq(desc.name.as_str(), name) {
                assert(spec_clashes(self.spec_descriptors()[i as int], name@, dir@));
                return Err(Error::IllegalArgument("Worker name is already in use.".to_string()));
            }
            let desc_dir = desc.root_dir.as_str();
            if path_eq(desc_dir, dir) {
                assert(spec_clashes(self.spec_descriptors()[i as int], name@, dir@));
                return Err(
                    Error::IllegalArgument("Worker directory is already in use.".to_string()),
                );
            }
            if path_starts_with(desc_dir, dir) || path_starts_with(dir, desc_dir) {
                assert(spec_clashes(self.spec_descriptors()[i as int], name@, dir@));
                return Err(
                    Error::IllegalArgument("Worker directories are overlapping.".to_string()),
                );
            }
            i = i + 1;
        }
        Ok(())
    }

    /// Adds a worker whose identity was handed out, whose core was pinned,
    /// and whose layout clashes with no known worker.
    pub fn insert_worker(&mut self, desc: StdDescriptor)
        requires
            old(self).wf(),
            desc.worker_id.0 < old(self).spec_next_id(),
            forall|i: int|
                0 <= i < old(self).spec_descriptors().len() ==> (#[trigger] old(
                    self,
                ).spec_descriptors()[i]).worker_id != desc.worker_id,
            forall|i: int|
                0 <= i < old(self).spec_descriptors().len() ==> !spec_clashes(
                    #[trigger] old(self).spec_descriptors()[i],
                    desc.name@,
                    desc.root_dir@,
                ),
            desc.core_id is Some ==> old(self).spec_used_cores().contains(desc.core_id->0),
            desc.core_id is Some ==> forall|i: int|
                0 <= i < old(self).spec_descriptors().len() ==> (#[trigger] old(
                    self,
                ).spec_descriptors()[i]).core_id != desc.core_id,
        ensures
            final(self).wf(),
            final(self).spec_descriptors() == old(self).spec_descriptors().push(desc),
            final(self).spec_used_cores() == old(self).spec_used_cores(),
            final(self).spec_next_id() == old(self).spec_next_id(),
            final(self).spec_finalized() == old(self).spec_finalized(),
            final(self).spec_root_dir() == old(self).spec_root_dir(),
            final(self).spec_taken_groups() == old(self).spec_taken_groups(),
    {
        let ghost old_ds = self.descriptors@;
        self.descriptors.push(desc);
        proof {
            let ds = self.descriptors@;
            assert forall|i: int, j: int| 0 <= i < j < ds.len() implies {
                &&& (#[trigger] ds[i]).worker_id != (#[trigger] ds[j]).worker_id
                &&& !spec_clashes(ds[i], ds[j].name@, ds[j].root_dir@)
                &&& (ds[i].core_id is Some ==> ds[i].core_id != ds[j].core_id)
            } by {
                if j == old_ds.len() {
                    assert(ds[i] == old_ds[i]);
                } else {
                    assert(ds[i] == old_ds[i] && ds[j] == old_ds[j]);
                }
            }
            assert forall|i: int| 0 <= i < ds.len() implies (#[trigger] ds[i]).worker_id.0
                < self.worker_id_ctr by {
                if i < old_ds.len() {
                    assert(ds[i] == old_ds[i]);
                }
            }
            assert forall|i: int|
                0 <= i < ds.len() && (#[trigger] ds[i]).core_id is Some implies self.used_cores@.contains(
                ds[i].core_id->0,
            ) by {
                if i < old_ds.len() {
                    assert(ds[i] == old_ds[i]);
                }
            }
        }
    }

    /// Registers the workers of group `group_id`, one per entry of `cores`,
    /// in order: each is pinned to its core, gets the next identity, is laid
    /// out by `layout`, gets the absolute form of its resolved directory
    /// from `absolute`, must clash with no known worker, and has its
    /// directory created by `create` before it is added. Refused once the
    /// registry is finalized; the first failure stops the registration, the
    /// workers registered before it staying.
    pub fn register_group<L, A, C>(
        &mut self,
        group_id: GroupId,
        cores: &[Option<u64>],
        layout: L,
        absolute: A,
        create: C,
    ) -> (r: Result<GroupId, Error>) where
        L: Fn(GroupId, WorkerId) -> Result<WorkerLayout, Error>,
        A: Fn(String) -> Result<String, Error>,
        C: Fn(String) -> Result<(), Error>,

        requires
            old(self).wf(),
            old(self).spec_next_id() + cores@.len() <= u32::MAX,
            forall|g: GroupId, w: WorkerId| #[trigger] call_requires(layout, (g, w)),
            forall|p: String| #[trigger] call_requires(absolute, (p,)),
            forall|p: String| #[trigger] call_requires(create, (p,)),
        ensures
            final(self).wf(),
            final(self).spec_root_dir() == old(self).spec_root_dir(),
            final(self).spec_finalized() == old(self).spec_finalized(),
            final(self).spec_taken_groups() == old(self).spec_taken_groups(),
            old(self).spec_descriptors().is_prefix_of(final(self).spec_descriptors()),
            final(self).spec_descriptors().len() <= old(self).spec_descriptors().len()
                + cores@.len(),
            forall|k: int|
                0 <= k < final(self).spec_descriptors().len() - old(self).spec_descriptors().len()
                    ==> spec_registered(
                    layout,
                    absolute,
                    create,
                    old(self).spec_root_dir(),
                    group_id,
                    WorkerId((old(self).spec_next_id() + k) as u32),
                    cores@[k],
                    #[trigger] final(self).spec_descriptors()[old(self).spec_descriptors().len() + k],
                ),
            old(self).spec_finalized() ==> (r matches Err(Error::IllegalState(_)))
                && final(self).spec_descriptors() == old(self).spec_descriptors(),
            !old(self).spec_finalized() && cores@.len() == 0 ==> r == Ok::<GroupId, Error>(group_id),
            r is Ok ==> {
                &&& r == Ok::<GroupId, Error>(group_id)
                &&& final(self).spec_descriptors().len() == old(self).spec_descriptors().len()
                    + cores@.len()
                &&& final(self).spec_next_id() == old(self).spec_next_id() + cores@.len()
                &&& final(self).spec_used_cores() == old(self).spec_used_cores() + spec_pinned(
                    cores@,
                )
            },
    {
        self.check_can_register()?;
        let ghost old_ds = self.descriptors@;
        let ghost old_used = self.used_cores@;
        let ghost old_next = self.worker_id_ctr;
        let ghost root = self.root_dir@;
        let mut i: usize = 0;
        while i < cores.len()
            invariant
                0 <= i <= cores@.len(),
                self.wf(),
                old_ds == old(self).spec_descriptors(),
                old_used == old(self).spec_used_cores(),
                old_next == old(self).spec_next_id(),
                root == old(self).spec_root_dir(),
                old_next + cores@.len() <= u32::MAX,
                !self.spec_finalized(),
                self.spec_finalized() == old(self).spec_finalized(),
                self.spec_root_dir() == root,
                self.spec_taken_groups() == old(self).spec_taken_groups(),
                self.spec_next_id() == old_next + i,
                self.spec_descriptors().len() == old_ds.len() + i,
                old_ds.is_prefix_of(self.spec_descriptors()),
                self.spec_used_cores() == old_used + spec_pinned(cores@.take(i as int)),
                forall|g: GroupId, w: WorkerId| #[trigger] call_requires(layout, (g, w)),
                forall|p: String| #[trigger] call_requires(absolute, (p,)),
                forall|p: String| #[trigger] call_requires(create, (p,)),
                forall|k: int|
                    0 <= k < i ==> spec_registered(
                        layout,
                        absolute,
                        create,
                        root,
                        group_id,
                        WorkerId((old_next + k) as u32),
                        cores@[k],
                        #[trigger] self.spec_descriptors()[old_ds.len() + k],
                    ),
            decreases cores@.len() - i,
        {
            let core = cores[i];
            let ghost ds_before = self.descriptors@;
            let ghost used_before = self.used_cores@;
            self.pin_core(core)?;
            let worker_id = self.allocate_worker_id();
            let lres = layout(group_id, worker_id);
            let lw = match lres {
                Ok(lw) => lw,
                Err(e) => {
                    return Err(e);
                },
            };
            let resolved = self.resolve_worker_layout(&lw);
            let ghost resolved_g = resolved;
            let ares = absolute(resolved);
            let dir = match ares {
                Ok(d) => d,
                Err(e) => {
                    return Err(e);
                },
            };
            self.validate_worker_layout(lw.name(), dir.as_str())?;
            let dir_copy = dir.clone();
            let ghost dir_copy_g = dir_copy;
            let cres = create(dir_copy);
            assert(call_ensures(create, (dir_copy_g,), cres));
            match cres {
                Ok(()) => {},
                Err(e) => {
                    return Err(e);
                },
            }
            assert(dir_copy == dir);
            assert(cres is Ok);
            let desc = StdDescriptor {
                name: lw.name().to_string(),
                root_dir: dir,
                worker_id,
                core_id: core,
                group_id,
            };
            proof {
                assert forall|k: int| 0 <= k < ds_before.len() implies (#[trigger] ds_before[k]).worker_id
                    != desc.worker_id by {
                    assert(ds_before[k].worker_id.0 < worker_id.0);
                }
                if core is Some {
                    assert(!used_before.contains(core->0));
                    assert forall|k: int| 0 <= k < ds_before.len() implies (#[trigger] ds_before[k]).core_id
                        != desc.core_id by {
                        if ds_before[k].core_id is Some {
                            assert(used_before.contains(ds_before[k].core_id->0));
                        }
                    }
                    assert(self.used_cores@[self.used_cores@.len() - 1] == core->0);
                }
            }
            self.insert_worker(desc);
            proof {
                assert(call_ensures(layout, (group_id, worker_id), Ok(lw)));
                assert(call_ensures(absolute, (resolved_g,), Ok(desc.root_dir)));
                assert(call_ensures(create, (desc.root_dir,), cres));
                assert(desc.name@ == lw.spec_name());
                assert(resolved_g@ == spec_resolved_workdir(root, lw.spec_workdir()));
                assert(spec_registered(
                    layout,
                    absolute,
                    create,
                    root,
                    group_id,
                    worker_id,
                    core,
                    desc,
                ));
                assert(cores@.take(i + 1).drop_last() =~= cores@.take(i as int));
                assert(cores@.take(i + 1).last() == core);
                assert forall|k: int|
                    0 <= k < i + 1 implies spec_registered(
                    layout,
                    absolute,
                    create,
                    root,
                    group_id,
                    WorkerId((old_next + k) as u32),
                    cores@[k],
                    #[trigger] self.spec_descriptors()[old_ds.len() + k],
                ) by {
                    if k < i {
                        assert(self.spec_descriptors()[old_ds.len() + k] == ds_before[old_ds.len()
                            + k]);
                    }
                }
                assert forall|k: int| 0 <= k < old_ds.len() implies old_ds[k]
                    == self.spec_descriptors()[k] by {
                    assert(ds_before[k] == old_ds[k]);
                }
            }
            i = i + 1;
        }
        proof {
            assert(cores@.take(cores@.len() as int) =~= cores@);
        }
        Ok(group_id)
    }

    /// Marks every group as registered; refused the second time.
    pub fn finalize_orchestration(&mut self) -> (r: Result<(), Error>)
        requires
            old(self).wf(),
        ensures
            final(self).wf(),
            final(self).spec_finalized(),
            old(self).spec_finalized() <==> (r matches Err(Error::IllegalState(_))),
            !old(self).spec_finalized() <==> r is Ok,
            final(self).spec_descriptors() == old(self).spec_descriptors(),
            final(self).spec_used_cores() == old(self).spec_used_cores(),
            final(self).spec_next_id() == old(self).spec_next_id(),
            final(self).spec_root_dir() == old(self).spec_root_dir(),
            final(self).spec_taken_groups() == old(self).spec_taken_groups(),
    {
        if self.finalized {
            return Err(
                Error::IllegalState(
                    "Trying to finalize a controller more than one time. This is not legal.".to_string(),
                ),
            );
        }
        self.finalized = true;
        Ok(())
    }

    /// The workers of `group`, in the order they were registered.
    pub fn group_workers(&self, group: GroupId) -> (r: Vec<WorkerId>)
        ensures
            r@ == spec_group_workers(self.spec_descriptors(), group),
    {
        let mut out: Vec<WorkerId> = Vec::new();
        let mut i: usize = 0;
        while i < self.descriptors.len()
            invariant
                0 <= i <= self.descriptors@.len(),
                out@ == spec_group_workers(self.descriptors@.take(i as int), group),
            decreases self.descriptors@.len() - i,
        {
            proof {
                assert(self.descriptors@.take(i + 1).drop_last() =~= self.descriptors@.take(
                    i as int,
                ));
            }
            if self.descriptors[i].group_id == group {
                out.push(self.descriptors[i].worker_id);
            }
            i = i + 1;
        }
        assert(self.descriptors@.take(self.descriptors@.len() as int) =~= self.descriptors@);
        out
    }

    /// Hands out the workers of `group`, once the registry is finalized.
    /// Refused before, for a group without workers, and for a group whose
    /// workers were handed out already.
    pub fn take_group_workers(&mut self, group: GroupId) -> (r: Result<Vec<WorkerId>, Error>)
        requires
            old(self).wf(),
        ensures
            final(self).wf(),
            final(self).spec_descriptors() == old(self).spec_descriptors(),
            final(self).spec_used_cores() == old(self).spec_used_cores(),
            final(self).spec_next_id() == old(self).spec_next_id(),
            final(self).spec_finalized() == old(self).spec_finalized(),
            final(self).spec_root_dir() == old(self).spec_root_dir(),
            (!old(self).spec_finalized() || old(self).spec_taken_groups().contains(group)
                || spec_group_workers(old(self).spec_descriptors(), group).len() == 0) ==> (r matches Err(
                Error::IllegalArgument(_),
            )) && final(self).spec_taken_groups() == old(self).spec_taken_groups(),
            !(!old(self).spec_finalized() || old(self).spec_taken_groups().contains(group)
                || spec_group_workers(old(self).spec_descriptors(), group).len() == 0) ==> (r
                matches Ok(ws) && ws@ == spec_group_workers(old(self).spec_descriptors(), group))
                && final(self).spec_taken_groups() == old(self).spec_taken_groups().push(group),
    {
        let mut taken = false;
        let mut i: usize = 0;
        while i < self.taken_groups.len()
            invariant
                0 <= i <= self.taken_groups@.len(),
                taken <==> exists|k: int| 0 <= k < i && self.taken_groups@[k] == group,
            decreases self.taken_groups@.len() - i,
        {
            if self.taken_groups[i] == group {
                taken = true;
            }
            i = i + 1;
        }
        let ws = self.group_workers(group);
        if !self.finalized || taken || ws.len() == 0 {
            return Err(
                Error::IllegalArgument("The group ID has not been registered".to_string()),
            );
        }
        self.taken_groups.push(group);
        Ok(ws)
    }
}

/// No two registered workers share an identity, a name, a pinned core, or
/// clashing working directories: the later one is neither the earlier one's
/// directory nor inside it nor around it.
pub proof fn lemma_registered_workers_distinct(reg: WorkerRegistry, i: int, j: int)
    requires
        reg.wf(),
        0 <= i < j < reg.spec_descriptors().len(),
    ensures
        reg.spec_descriptors()[i].worker_id != reg.spec_descriptors()[j].worker_id,
        reg.spec_descriptors()[i].name@ != reg.spec_descriptors()[j].name@,
        !spec_dirs_clash(reg.spec_descriptors()[i].root_dir@, reg.spec_descriptors()[j].root_dir@),
        reg.spec_descriptors()[i].core_id is Some ==> reg.spec_descriptors()[i].core_id
            != reg.spec_descriptors()[j].core_id,
{
    let ds = reg.spec_descriptors();
    assert(ds[i].worker_id != ds[j].worker_id);
}

/// A command a worker receives from the controller.
#[derive(Debug)]
pub enum GenericCommand<H, U> {
    /// Stop fuzzing.
    Shutdown,
    /// Import the testcase `id`, whose input `handle` gives access to.
    Import { id: TestcaseId, handle: H },
    /// A payload of the user's own.
    Custom(U),
}

/// The imports kept from `pending`, in order, given the ids `seen` before:
/// the first import of each id not seen yet; and the ids seen afterwards.
pub open spec fn spec_fresh_imports<H>(pending: Seq<(TestcaseId, H)>, seen: Set<u64>) -> (
    Seq<(TestcaseId, H)>,
    Set<u64>,
)
    decreases pending.len(),
{
    if pending.len() == 0 {
        (Seq::empty(), seen)
    } else {
        let (kept, seen_before) = spec_fresh_imports(pending.drop_last(), seen);
        let last = pending.last();
        if seen_before.contains(last.0.0) {
            (kept, seen_before)
        } else {
            (kept.push(last), seen_before.insert(last.0.0))
        }
    }
}

/// The ids of a list of imports.
pub open spec fn spec_import_ids<H>(imports: Seq<(TestcaseId, H)>) -> Seq<u64> {
    imports.map_values(|p: (TestcaseId, H)| p.0.0)
}

/// A worker's side of the testcase sharing: the testcases it has sent or
/// received, the commands waiting to be handled, and whether it must stop.
#[derive(Debug)]
pub struct GenericWorker<H, U> {
    descriptor: StdDescriptor,
    seen_testcases: U64Set,
    pending_imports: Vec<(TestcaseId, H)>,
    pending_customs: Vec<U>,
    shutdown_requested: bool,
    should_report: bool,
    outbox: Vec<TestcaseId>,
}

impl<H, U> GenericWorker<H, U> {
    /// The ids of the testcases sent or received.
    pub closed spec fn spec_seen(&self) -> Set<u64> {
        self.seen_testcases.spec_contents()
    }

    /// The imports waiting to be handled.
    pub closed spec fn spec_pending_imports(&self) -> Seq<(TestcaseId, H)> {
        self.pending_imports@
    }

    /// The payloads waiting to be handled.
    pub closed spec fn spec_pending_customs(&self) -> Seq<U> {
        self.pending_customs@
    }

    /// Whether a shutdown was asked for.
    pub closed spec fn spec_shutdown_requested(&self) -> bool {
        self.shutdown_requested
    }

    /// Whether the worker's testcases go anywhere.
    pub closed spec fn spec_should_report(&self) -> bool {
        self.should_report
    }

    /// The worker's description.
    pub closed spec fn spec_descriptor(&self) -> StdDescriptor {
        self.descriptor
    }

    /// The ids of the testcases sent and not announced to the controller yet.
    pub closed spec fn spec_outbox(&self) -> Seq<TestcaseId> {
        self.outbox@
    }

    /// Hands out the ids of the testcases sent since the last call, in the
    /// order they were sent, to be announced to the controller.
    pub fn take_outbox(&mut self) -> (r: Vec<TestcaseId>)
        ensures
            r@ == old(self).spec_outbox(),
            final(self).spec_outbox() == Seq::<TestcaseId>::empty(),
            final(self).spec_seen() == old(self).spec_seen(),
            final(self).spec_pending_imports() == old(self).spec_pending_imports(),
            final(self).spec_pending_customs() == old(self).spec_pending_customs(),
            final(self).spec_shutdown_requested() == old(self).spec_shutdown_requested(),
            final(self).spec_should_report() == old(self).spec_should_report(),
            final(self).spec_descriptor() == old(self).spec_descriptor(),
    {
        let mut out: Vec<TestcaseId> = Vec::new();
        std::mem::swap(&mut out, &mut self.outbox);
        out
    }

    /// A worker that has seen nothing yet.
    pub fn new(descriptor: StdDescriptor, should_report: bool) -> (r: Self)
        ensures
            r.spec_descriptor() == descriptor,
            r.spec_should_report() == should_report,
            r.spec_seen() == Set::<u64>::empty(),
            r.spec_pending_imports() == Seq::<(TestcaseId, H)>::empty(),
            r.spec_pending_customs() == Seq::<U>::empty(),
            !r.spec_shutdown_requested(),
            r.spec_outbox() == Seq::<TestcaseId>::empty(),
    {
        GenericWorker {
            descriptor,
            seen_testcases: U64Set::new(),
            pending_imports: Vec::new(),
            pending_customs: Vec::new(),
            shutdown_requested: false,
            should_report,
            outbox: Vec::new(),
        }
    }

    /// The worker's description.
    pub fn descriptor(&self) -> (r: &StdDescriptor)
        ensures
            *r == self.spec_descriptor(),
    {
        &self.descriptor
    }

    /// The worker's identity.
    pub fn id(&self) -> (r: WorkerId)
        ensures
            r == self.spec_descriptor().worker_id,
    {
        self.descriptor.worker_id
    }

    /// Takes the commands received since the last poll: a shutdown is
    /// remembered, imports and payloads wait to be handled. Whether anything came.
    pub fn poll(&mut self, commands: Vec<GenericCommand<H, U>>) -> (r: bool)
        ensures
            r == (commands@.len() > 0),
            final(self).spec_shutdown_requested() == (old(self).spec_shutdown_requested() || exists|
                i: int,
            | 0 <= i < commands@.len() && commands@[i] is Shutdown),
            final(self).spec_seen() == old(self).spec_seen(),
            final(self).spec_descriptor() == old(self).spec_descriptor(),
            final(self).spec_should_report() == old(self).spec_should_report(),
            final(self).spec_outbox() == old(self).spec_outbox(),
    {
        let received = commands.len() > 0;
        let ghost cs = commands@;
        let n = commands.len();
        let mut rest = commands;
        let mut taken: usize = 0;
        while rest.len() > 0
            invariant
                cs.len() == n,
                rest@ == cs.skip(taken as int),
                taken + rest@.len() == cs.len(),
                self.spec_shutdown_requested() == (old(self).spec_shutdown_requested() || exists|
                    i: int,
                | 0 <= i < taken && cs[i] is Shutdown),
                self.spec_seen() == old(self).spec_seen(),
                self.spec_descriptor() == old(self).spec_descriptor(),
                self.spec_should_report() == old(self).spec_should_report(),
                self.spec_outbox() == old(self).spec_outbox(),
            decreases rest@.len(),
        {
            let command = rest.remove(0);
            proof {
                assert(command == cs[taken as int]);
                assert(rest@ =~= cs.skip(taken + 1));
            }
            match command {
                GenericCommand::Shutdown => {
                    self.shutdown_requested = true;
                },
                GenericCommand::Import { id, handle } => {
                    self.pending_imports.push((id, handle));
                },
                GenericCommand::Custom(payload) => {
                    self.pending_customs.push(payload);
                },
            }
            proof {
                assert forall|i: int| 0 <= i < taken + 1 && cs[i] is Shutdown implies
                    self.spec_shutdown_requested() by {
                    if i < taken {
                    }
                }
            }
            taken = taken + 1;
        }
        received
    }

    /// Whether the worker must stop, as asked in the commands polled so far.
    pub fn should_shutdown(&self) -> (r: bool)
        ensures
            r == self.spec_shutdown_requested(),
    {
        self.shutdown_requested
    }

    /// Decides whether a new testcase is sent to the controller: only when
    /// the worker's testcases go anywhere; it is then marked as seen, so
    /// that it is not imported back.
    pub fn mark_sent(&mut self, id: TestcaseId) -> (r: bool)
        ensures
            r == old(self).spec_should_report(),
            final(self).spec_seen() == if r {
                old(self).spec_seen().insert(id.0)
            } else {
                old(self).spec_seen()
            },
            final(self).spec_pending_imports() == old(self).spec_pending_imports(),
            final(self).spec_pending_customs() == old(self).spec_pending_customs(),
            final(self).spec_shutdown_requested() == old(self).spec_shutdown_requested(),
            final(self).spec_should_report() == old(self).spec_should_report(),
            final(self).spec_descriptor() == old(self).spec_descriptor(),
            final(self).spec_outbox() == old(self).spec_outbox(),
    {
        if !self.should_report {
            return false;
        }
        self.seen_testcases.insert(id.0);
        true
    }

    /// Hands out the pending imports of testcases not seen yet, each once,
    /// and marks them as seen.
    pub fn take_imports(&mut self) -> (r: Vec<(TestcaseId, H)>)
        ensures
            r@ == spec_fresh_imports(old(self).spec_pending_imports(), old(self).spec_seen()).0,
            final(self).spec_seen() == spec_fresh_imports(
                old(self).spec_pending_imports(),
                old(self).spec_seen(),
            ).1,
            final(self).spec_pending_imports() == Seq::<(TestcaseId, H)>::empty(),
            final(self).spec_shutdown_requested() == old(self).spec_shutdown_requested(),
            final(self).spec_should_report() == old(self).spec_should_report(),
            final(self).spec_descriptor() == old(self).spec_descriptor(),
            final(self).spec_outbox() == old(self).spec_outbox(),
            final(self).spec_pending_customs() == old(self).spec_pending_customs(),
    {
        let mut pending: Vec<(TestcaseId, H)> = Vec::new();
        std::mem::swap(&mut pending, &mut self.pending_imports);
        let ghost all = pending@;
        let ghost seen0 = self.spec_seen();
        let n = pending.len();
        let mut out: Vec<(TestcaseId, H)> = Vec::new();
        let mut taken: usize = 0;
        while pending.len() > 0
            invariant
                all.len() == n,
                pending@ == all.skip(taken as int),
                taken + pending@.len() == all.len(),
                out@ == spec_fresh_imports(all.take(taken as int), seen0).0,
                self.spec_seen() == spec_fresh_imports(all.take(taken as int), seen0).1,
                self.spec_pending_imports() == Seq::<(TestcaseId, H)>::empty(),
                self.spec_shutdown_requested() == old(self).spec_shutdown_requested(),
                self.spec_should_report() == old(self).spec_should_report(),
                self.spec_descriptor() == old(self).spec_descriptor(),
                self.spec_outbox() == old(self).spec_outbox(),
                self.spec_pending_customs() == old(self).spec_pending_customs(),
            decreases pending@.len(),
        {
            let item = pending.remove(0);
            proof {
                assert(item == all[taken as int]);
                assert(pending@ =~= all.skip(taken + 1));
                assert(all.take(taken + 1).drop_last() =~= all.take(taken as int));
                assert(all.take(taken + 1).last() == all[taken as int]);
            }
            let fresh = self.seen_testcases.insert(item.0.0);
            if fresh {
                out.push(item);
            }
            taken = taken + 1;
        }
        proof {
            assert(all.take(taken as int) =~= all);
        }
        out
    }

    /// Checks that an imported testcase has the id it was announced with.
    pub fn check_import<I>(id: TestcaseId, testcase: &Testcase<I>) -> (r: Result<(), Error>)
        ensures
            r is Ok <==> testcase.spec_id() == id,
            r is Err ==> (r matches Err(Error::IllegalArgument(_))),
    {
        if testcase.id().0 != id.0 {
            return Err(
                Error::IllegalArgument("imported ID does not match input content".to_string()),
            );
        }
        Ok(())
    }

    /// Hands out the payloads received.
    pub fn recv_custom(&mut self) -> (r: Vec<U>)
        ensures
            r@ == old(self).spec_pending_customs(),
            final(self).spec_pending_customs() == Seq::<U>::empty(),
            final(self).spec_seen() == old(self).spec_seen(),
            final(self).spec_pending_imports() == old(self).spec_pending_imports(),
            final(self).spec_shutdown_requested() == old(self).spec_shutdown_requested(),
            final(self).spec_outbox() == old(self).spec_outbox(),
            final(self).spec_should_report() == old(self).spec_should_report(),
            final(self).spec_descriptor() == old(self).spec_descriptor(),
    {
        let mut out: Vec<U> = Vec::new();
        std::mem::swap(&mut out, &mut self.pending_customs);
        out
    }
}

/// Whether resolving the handle `h` of an import announced as `id` can end
/// in `err`: the resolution failed with it, or it gave an input whose id is
/// not `id`, which is refused.
pub open spec fn spec_import_failed<I: Input, H, F: Fn(H) -> Result<I, Error>>(
    resolve: F,
    h: H,
    id: TestcaseId,
    err: Error,
) -> bool {
    ||| call_ensures(resolve, (h,), Err(err))
    ||| (err is IllegalArgument && exists|input: I|
        call_ensures(resolve, (h,), Ok(input)) && spec_input_id(input) != id)
}

/// A worker able to share testcases with the other workers.
pub trait SharingWorker<I, H>: Sized {
    /// Whether reporting `testcase` can take the worker from `self` to
    /// `after`, ending in `r`.
    spec fn spec_send_testcase(&self, testcase: Testcase<I>, after: Self, r: Result<(), Error>) -> bool;

    /// Reports a new testcase, to be shared with the other workers.
    fn send_testcase(&mut self, testcase: &Testcase<I>) -> (r: Result<(), Error>)
        ensures
            old(self).spec_send_testcase(*testcase, *final(self), r),
    ;

    /// The testcases to evaluate, out of the imports polled so far, each
    /// input obtained from its handle by `resolve`.
    fn recv_testcases<F: Fn(H) -> Result<I, Error>>(&mut self, resolve: F) -> (r: Result<
        Vec<Testcase<I>>,
        Error,
    >)
        requires
            forall|h: H| #[trigger] call_requires(resolve, (h,)),
    ;
}

impl<I: Input, H, U> SharingWorker<I, H> for GenericWorker<H, U> {
    /// Where the worker's testcases go somewhere, the testcase is marked as
    /// seen and its id waits in the outbox to be announced; nothing changes
    /// otherwise.
    open spec fn spec_send_testcase(&self, testcase: Testcase<I>, after: Self, r: Result<(), Error>) -> bool {
        &&& r is Ok
        &&& after.spec_should_report() == self.spec_should_report()
        &&& after.spec_pending_imports() == self.spec_pending_imports()
        &&& after.spec_pending_customs() == self.spec_pending_customs()
        &&& after.spec_shutdown_requested() == self.spec_shutdown_requested()
        &&& after.spec_descriptor() == self.spec_descriptor()
        &&& if self.spec_should_report() {
            &&& after.spec_seen() == self.spec_seen().insert(testcase.spec_id().0)
            &&& after.spec_outbox() == self.spec_outbox().push(testcase.spec_id())
        } else {
            &&& after.spec_seen() == self.spec_seen()
            &&& after.spec_outbox() == self.spec_outbox()
        }
    }

    fn send_testcase(&mut self, testcase: &Testcase<I>) -> (r: Result<(), Error>) {
        let id = *testcase.id();
        if self.mark_sent(id) {
            self.outbox.push(id);
        }
        Ok(())
    }

    /// The imports of testcases not seen yet are resolved in turn, each
    /// marked as seen first; the first failure stops the whole, and the
    /// imports are gone either way.
    fn recv_testcases<F: Fn(H) -> Result<I, Error>>(&mut self, resolve: F) -> (r: Result<
        Vec<Testcase<I>>,
        Error,
    >)
        ensures
            final(self).spec_pending_imports() == Seq::<(TestcaseId, H)>::empty(),
            final(self).spec_shutdown_requested() == old(self).spec_shutdown_requested(),
            final(self).spec_should_report() == old(self).spec_should_report(),
            final(self).spec_descriptor() == old(self).spec_descriptor(),
            final(self).spec_outbox() == old(self).spec_outbox(),
            final(self).spec_pending_customs() == old(self).spec_pending_customs(),
            ({
                let fresh = spec_fresh_imports(old(self).spec_pending_imports(), old(self).spec_seen());
                r matches Ok(tcs) ==> {
                    &&& final(self).spec_seen() == fresh.1
                    &&& tcs@.len() == fresh.0.len()
                    &&& forall|k: int|
                        0 <= k < tcs@.len() ==> {
                            &&& (#[trigger] tcs@[k]).spec_id() == fresh.0[k].0
                            &&& spec_input_id(tcs@[k].spec_input()) == fresh.0[k].0
                            &&& call_ensures(resolve, (fresh.0[k].1,), Ok(tcs@[k].spec_input()))
                        }
                }
            }),
            ({
                let pending = old(self).spec_pending_imports();
                let seen = old(self).spec_seen();
                r matches Err(e) ==> exists|n: int|
                    0 <= n < pending.len() && {
                        let before = spec_fresh_imports(#[trigger] pending.take(n), seen).1;
                        &&& !before.contains(pending[n].0.0)
                        &&& final(self).spec_seen() == before.insert(pending[n].0.0)
                        &&& spec_import_failed(resolve, pending[n].1, pending[n].0, e)
                    }
            }),
    {
        let mut pending: Vec<(TestcaseId, H)> = Vec::new();
        std::mem::swap(&mut pending, &mut self.pending_imports);
        let ghost all = pending@;
        let ghost seen0 = self.spec_seen();
        let n = pending.len();
        let mut out: Vec<Testcase<I>> = Vec::new();
        let mut taken: usize = 0;
        while pending.len() > 0
            invariant
                all.len() == n,
                all == old(self).spec_pending_imports(),
                seen0 == old(self).spec_seen(),
                pending@ == all.skip(taken as int),
                taken + pending@.len() == all.len(),
                forall|h: H| #[trigger] call_requires(resolve, (h,)),
                self.spec_seen() == spec_fresh_imports(all.take(taken as int), seen0).1,
                out@.len() == spec_fresh_imports(all.take(taken as int), seen0).0.len(),
                forall|k: int|
                    0 <= k < out@.len() ==> {
                        let f = spec_fresh_imports(all.take(taken as int), seen0).0;
                        &&& (#[trigger] out@[k]).spec_id() == f[k].0
                        &&& spec_input_id(out@[k].spec_input()) == f[k].0
                        &&& call_ensures(resolve, (f[k].1,), Ok(out@[k].spec_input()))
                    },
                self.spec_pending_imports() == Seq::<(TestcaseId, H)>::empty(),
                self.spec_shutdown_requested() == old(self).spec_shutdown_requested(),
                self.spec_should_report() == old(self).spec_should_report(),
                self.spec_descriptor() == old(self).spec_descriptor(),
                self.spec_outbox() == old(self).spec_outbox(),
                self.spec_pending_customs() == old(self).spec_pending_customs(),
            decreases pending@.len(),
        {
            let item = pending.remove(0);
            let ghost before = spec_fresh_imports(all.take(taken as int), seen0);
            proof {
                assert(item == all[taken as int]);
                assert(pending@ =~= all.skip(taken + 1));
                assert(all.take(taken + 1).drop_last() =~= all.take(taken as int));
                assert(all.take(taken + 1).last() == all[taken as int]);
            }
            let (id, handle) = item;
            let fresh = self.seen_testcases.insert(id.0);
            if fresh {
                let ghost h = handle;
                let res = resolve(handle);
                match res {
                    Ok(input) => {
                        let ghost inp = input;
                        let tc = Testcase::new(Rc::new(input));
                        if tc.id().0 != id.0 {
                            let err = Error::IllegalArgument(
                                "imported ID does not match input content".to_string(),
                            );
                            proof {
                                assert(call_ensures(resolve, (h,), Ok(inp)));
                                assert(spec_input_id(inp) != id);
                                assert(spec_import_failed(resolve, h, id, err));
                            }
                            return Err(err);
                        }
                        out.push(tc);
                    },
                    Err(e) => {
                        proof {
                            assert(spec_import_failed(resolve, h, id, e));
                        }
                        return Err(e);
                    },
                }
            }
            taken = taken + 1;
        }
        proof {
            assert(all.take(taken as int) =~= all);
        }
        Ok(out)
    }
}

/// A worker of the controller without workers: it shares nothing, and
/// receives no handles.
#[derive(Debug, Clone, Copy, Default)]
pub struct NopWorker;

impl<I> SharingWorker<I, ()> for NopWorker {
    /// Nothing is shared.
    open spec fn spec_send_testcase(&self, testcase: Testcase<I>, after: Self, r: Result<(), Error>) -> bool {
        r is Ok && after == *self
    }

    fn send_testcase(&mut self, _testcase: &Testcase<I>) -> (r: Result<(), Error>) {
        Ok(())
    }

    fn recv_testcases<F: Fn(()) -> Result<I, Error>>(&mut self, _resolve: F) -> (r: Result<
        Vec<Testcase<I>>,
        Error,
    >)
        ensures
            r matches Ok(v) && v@.len() == 0,
    {
        Ok(Vec::new())
    }
}

/// A testcase is never imported twice, nor imported once it was seen: the
/// imports handed out have distinct ids, none seen before, and all of them
/// are seen afterwards.
pub proof fn lemma_imports_fresh<H>(pending: Seq<(TestcaseId, H)>, seen: Set<u64>)
    ensures
        spec_import_ids(spec_fresh_imports(pending, seen).0).no_duplicates(),
        forall|k: int|
            0 <= k < spec_fresh_imports(pending, seen).0.len() ==> !seen.contains(
                (#[trigger] spec_fresh_imports(pending, seen).0[k]).0.0,
            ) && spec_fresh_imports(pending, seen).1.contains(spec_fresh_imports(pending, seen).0[k].0.0),
        seen.subset_of(spec_fresh_imports(pending, seen).1),
    decreases pending.len(),
{
    if pending.len() > 0 {
        lemma_imports_fresh(pending.drop_last(), seen);
        let (kept, sb) = spec_fresh_imports(pending.drop_last(), seen);
        let last = pending.last();
        if !sb.contains(last.0.0) {
            let ids = spec_import_ids(kept.push(last));
            assert(ids =~= spec_import_ids(kept).push(last.0.0));
            assert forall|a: int, b: int| 0 <= a < b < ids.len() implies ids[a] != ids[b] by {
                if b == kept.len() {
                    assert(sb.contains(kept[a].0.0));
                }
            }
        }
    }
}

} // verus!
