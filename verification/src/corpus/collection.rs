//! The corpora: in memory, on disk, and the objective and no-op variants.
use core::marker::PhantomData;
use vstd::prelude::*;
use crate::corpus::schedulers::{NopScheduler, Scheduler};
use crate::corpus::store::{has_id, InMemoryStore, OnDiskStore, OnDiskStoreBuilder, StorageResult};
use crate::corpus::testcase::{Testcase, TestcaseFilenameFormat, TestcaseId};
use crate::error::Error;
use crate::inputs::NopInput;

verus! {

/// A corpus holds testcases, enabled or disabled, and hands them back by id.
pub trait Corpus<I> {
    /// The enabled testcases, in the order they were added.
    spec fn spec_enabled(&self) -> Seq<Testcase<I>>;

    /// The disabled testcases, in the order they were added.
    spec fn spec_disabled(&self) -> Seq<Testcase<I>>;

    /// Whether the corpus stores testcases at all.
    spec fn spec_stores(&self) -> bool;

    /// The number of enabled testcases.
    fn count(&self) -> (r: usize)
        ensures
            r == self.spec_enabled().len(),
    ;

    /// The number of disabled testcases.
    fn count_disabled(&self) -> (r: usize)
        ensures
            r == self.spec_disabled().len(),
    ;

    /// The number of all testcases, saturating at the largest `usize`.
    fn count_all(&self) -> (r: usize)
        ensures
            r == if self.spec_enabled().len() + self.spec_disabled().len() > usize::MAX {
                usize::MAX as int
            } else {
                (self.spec_enabled().len() + self.spec_disabled().len()) as int
            },
    ;

    /// Adds a testcase, enabled or disabled, and returns its id. A testcase
    /// whose id is already stored on the same side is not added again.
    fn add_shared<const ENABLED: bool>(&mut self, testcase: Testcase<I>) -> (r: Result<TestcaseId, Error>)
        ensures
            !old(self).spec_stores() ==> (r matches Err(e) && e is Unsupported),
            old(self).spec_stores() ==> {
                let id = testcase.spec_id();
                let side = if ENABLED {
                    old(self).spec_enabled()
                } else {
                    old(self).spec_disabled()
                };
                &&& r == Ok::<TestcaseId, Error>(id)
                &&& has_id(side, id) ==> final(self).spec_enabled() == old(self).spec_enabled()
                    && final(self).spec_disabled() == old(self).spec_disabled()
                &&& !has_id(side, id) ==> (if ENABLED {
                    final(self).spec_enabled() == old(self).spec_enabled().push(testcase)
                        && final(self).spec_disabled() == old(self).spec_disabled()
                } else {
                    final(self).spec_disabled() == old(self).spec_disabled().push(testcase)
                        && final(self).spec_enabled() == old(self).spec_enabled()
                })
            },
            final(self).spec_stores() == old(self).spec_stores(),
    ;

    /// Gets the testcase with the given id: among the enabled ones, or, when
    /// `ENABLED` is false, among all of them.
    fn get_from<const ENABLED: bool>(&self, id: &TestcaseId) -> (r: Result<Testcase<I>, Error>)
        ensures
            !self.spec_stores() ==> (r matches Err(e) && e is Unsupported),
            self.spec_stores() ==> {
                &&& r is Ok <==> has_id(self.spec_enabled(), *id) || (!ENABLED && has_id(
                    self.spec_disabled(),
                    *id,
                ))
                &&& r matches Err(e) ==> e is KeyNotFound
                &&& r matches Ok(t) ==> t.spec_id() == *id && (if has_id(self.spec_enabled(), *id) {
                    self.spec_enabled().contains(t)
                } else {
                    self.spec_disabled().contains(t)
                })
            },
    ;
}

/// A corpus that also schedules its testcases.
pub trait ScheduledCorpus<SC> {
    /// The scheduler.
    spec fn spec_scheduler(&self) -> SC;

    /// The scheduler.
    fn scheduler(&self) -> (r: &SC)
        ensures
            *r == self.spec_scheduler(),
    ;
}

/// The corpus held entirely in memory, with a scheduler told about every
/// stored testcase.
#[derive(Debug)]
pub struct InMemoryCorpus<I, SC> {
    store: InMemoryStore<I>,
    scheduler: SC,
}

impl<I, SC> InMemoryCorpus<I, SC> {
    /// Create a new in-memory corpus with the given scheduler.
    pub fn new(scheduler: SC) -> (r: Self)
        ensures
            r.spec_enabled() == Seq::<Testcase<I>>::empty(),
            r.spec_disabled() == Seq::<Testcase<I>>::empty(),
            r.spec_scheduler() == scheduler,
    {
        InMemoryCorpus { store: InMemoryStore::new(), scheduler }
    }

    /// Create a new in-memory corpus with the given scheduler.
    pub fn with_scheduler(scheduler: SC) -> (r: Self)
        ensures
            r.spec_enabled() == Seq::<Testcase<I>>::empty(),
            r.spec_disabled() == Seq::<Testcase<I>>::empty(),
            r.spec_scheduler() == scheduler,
    {
        Self::new(scheduler)
    }

    /// The scheduler, mutably.
    pub fn scheduler_mut(&mut self) -> (r: &mut SC)
        ensures
            *r == old(self).spec_scheduler(),
            final(self).spec_scheduler() == *final(r),
            final(self).spec_enabled() == old(self).spec_enabled(),
            final(self).spec_disabled() == old(self).spec_disabled(),
    {
        &mut self.scheduler
    }

    /// The enabled testcases.
    pub closed spec fn spec_enabled(&self) -> Seq<Testcase<I>> {
        self.store.spec_enabled()
    }

    /// The disabled testcases.
    pub closed spec fn spec_disabled(&self) -> Seq<Testcase<I>> {
        self.store.spec_disabled()
    }

    /// The scheduler.
    pub closed spec fn spec_scheduler(&self) -> SC {
        self.scheduler
    }
}

impl InMemoryCorpus<NopInput, NopScheduler> {
    /// An in-memory corpus of no-op inputs, without scheduling.
    pub fn nop() -> (r: Self)
        ensures
            r.spec_enabled() == Seq::<Testcase<NopInput>>::empty(),
            r.spec_disabled() == Seq::<Testcase<NopInput>>::empty(),
    {
        InMemoryCorpus { store: InMemoryStore::new(), scheduler: NopScheduler }
    }
}

impl<I, SC> ScheduledCorpus<SC> for InMemoryCorpus<I, SC> {
    open spec fn spec_scheduler(&self) -> SC {
        InMemoryCorpus::<I, SC>::spec_scheduler(self)
    }

    fn scheduler(&self) -> (r: &SC) {
        &self.scheduler
    }
}

impl<I, SC: Scheduler> Corpus<I> for InMemoryCorpus<I, SC> {
    open spec fn spec_enabled(&self) -> Seq<Testcase<I>> {
        InMemoryCorpus::<I, SC>::spec_enabled(self)
    }

    open spec fn spec_disabled(&self) -> Seq<Testcase<I>> {
        InMemoryCorpus::<I, SC>::spec_disabled(self)
    }

    open spec fn spec_stores(&self) -> bool {
        true
    }

    fn count(&self) -> (r: usize) {
        self.store.count()
    }

    fn count_disabled(&self) -> (r: usize) {
        self.store.count_disabled()
    }

    fn count_all(&self) -> (r: usize) {
        self.store.count_all()
    }

    /// Adds the testcase; a testcase that gets stored is also handed to the scheduler.
    fn add_shared<const ENABLED: bool>(&mut self, testcase: Testcase<I>) -> (r: Result<TestcaseId, Error>)
        ensures
            ({
                let id = testcase.spec_id();
                let side = if ENABLED {
                    old(self).spec_enabled()
                } else {
                    old(self).spec_disabled()
                };
                &&& !has_id(side, id) ==> final(self).spec_scheduler().spec_ids() == if old(
                    self,
                ).spec_scheduler().spec_records_ids() {
                    old(self).spec_scheduler().spec_ids().push(id)
                } else {
                    old(self).spec_scheduler().spec_ids()
                }
                &&& has_id(side, id) ==> final(self).spec_scheduler() == old(self).spec_scheduler()
                &&& final(self).spec_scheduler().spec_current() == old(
                    self,
                ).spec_scheduler().spec_current()
            }),
    {
        let res = self.store.add_shared::<ENABLED>(testcase);
        match res {
            Ok(StorageResult::Stored(id)) => {
                let _ = self.scheduler.on_add(id);
                Ok(id)
            },
            Ok(StorageResult::Duplicate(id)) => Ok(id),
            Err(e) => Err(e),
        }
    }

    fn get_from<const ENABLED: bool>(&self, id: &TestcaseId) -> (r: Result<Testcase<I>, Error>) {
        let r = self.store.get_from::<ENABLED>(id);
        r
    }
}

impl<I, SC: Scheduler> InMemoryCorpus<I, SC> {
    /// Adds an enabled testcase and returns its id.
    pub fn add(&mut self, testcase: Testcase<I>) -> (r: Result<TestcaseId, Error>)
        ensures
            r == Ok::<TestcaseId, Error>(testcase.spec_id()),
            has_id(old(self).spec_enabled(), testcase.spec_id()) ==> final(self).spec_enabled()
                == old(self).spec_enabled() && final(self).spec_scheduler() == old(
                self,
            ).spec_scheduler(),
            !has_id(old(self).spec_enabled(), testcase.spec_id()) ==> final(self).spec_enabled()
                == old(self).spec_enabled().push(testcase) && final(self).spec_scheduler().spec_ids()
                == if old(self).spec_scheduler().spec_records_ids() {
                old(self).spec_scheduler().spec_ids().push(testcase.spec_id())
            } else {
                old(self).spec_scheduler().spec_ids()
            },
            final(self).spec_disabled() == old(self).spec_disabled(),
            final(self).spec_scheduler().spec_current() == old(self).spec_scheduler().spec_current(),
    {
        self.add_shared::<true>(testcase)
    }

    /// Adds a disabled testcase and returns its id.
    pub fn add_disabled(&mut self, testcase: Testcase<I>) -> (r: Result<TestcaseId, Error>)
        ensures
            r == Ok::<TestcaseId, Error>(testcase.spec_id()),
            final(self).spec_enabled() == old(self).spec_enabled(),
            !has_id(old(self).spec_disabled(), testcase.spec_id()) ==> final(self).spec_disabled()
                == old(self).spec_disabled().push(testcase),
            has_id(old(self).spec_disabled(), testcase.spec_id()) ==> final(self).spec_disabled()
                == old(self).spec_disabled(),
    {
        self.add_shared::<false>(testcase)
    }

    /// Gets the enabled testcase with the given id.
    pub fn get(&self, id: &TestcaseId) -> (r: Result<Testcase<I>, Error>)
        ensures
            r is Ok <==> has_id(self.spec_enabled(), *id),
            r matches Err(e) ==> e is KeyNotFound,
            r matches Ok(t) ==> t.spec_id() == *id && self.spec_enabled().contains(t),
    {
        let r = self.store.get_from::<true>(id);
        proof {
            if r is Ok {
                let t = r->Ok_0;
                let k = choose|k: int|
                    0 <= k < self.spec_enabled().len() && (#[trigger] self.spec_enabled()[k]) == t;
                assert(self.spec_enabled()[k] == t);
            }
        }
        r
    }

    /// Moves the enabled testcase with the given id to the disabled ones.
    pub fn disable(&mut self, id: &TestcaseId) -> (r: Result<(), Error>)
        ensures
            r is Ok <==> has_id(old(self).spec_enabled(), *id),
            r matches Err(e) ==> e is KeyNotFound,
            r is Ok ==> !has_id(final(self).spec_enabled(), *id) && has_id(
                final(self).spec_disabled(),
                *id,
            ),
            final(self).spec_scheduler() == old(self).spec_scheduler(),
    {
        self.store.disable(id)
    }
}

/// An in-memory corpus of objectives: testcases that reached a goal, such as a crash.
#[derive(Debug)]
pub struct ObjectiveInMemoryCorpus<I> {
    store: InMemoryStore<I>,
}

impl<I> ObjectiveInMemoryCorpus<I> {
    /// Create a new, empty, objective corpus.
    pub fn new() -> (r: Self)
        ensures
            r.spec_enabled() == Seq::<Testcase<I>>::empty(),
            r.spec_disabled() == Seq::<Testcase<I>>::empty(),
    {
        ObjectiveInMemoryCorpus { store: InMemoryStore::new() }
    }

    /// The objectives.
    pub closed spec fn spec_enabled(&self) -> Seq<Testcase<I>> {
        self.store.spec_enabled()
    }

    /// The disabled objectives.
    pub closed spec fn spec_disabled(&self) -> Seq<Testcase<I>> {
        self.store.spec_disabled()
    }

    /// Adds an objective and returns its id.
    pub fn add_objective(&mut self, testcase: Testcase<I>) -> (r: Result<TestcaseId, Error>)
        ensures
            r == Ok::<TestcaseId, Error>(testcase.spec_id()),
            !has_id(old(self).spec_enabled(), testcase.spec_id()) ==> final(self).spec_enabled()
                == old(self).spec_enabled().push(testcase),
            has_id(old(self).spec_enabled(), testcase.spec_id()) ==> final(self).spec_enabled()
                == old(self).spec_enabled(),
            final(self).spec_disabled() == old(self).spec_disabled(),
    {
        let res = self.store.add_shared::<true>(testcase);
        match res {
            Ok(s) => Ok(s.id()),
            Err(e) => Err(e),
        }
    }

    /// The number of objectives.
    pub fn count(&self) -> (r: usize)
        ensures
            r == self.spec_enabled().len(),
    {
        self.store.count()
    }

    /// Gets the objective with the given id.
    pub fn get(&self, id: &TestcaseId) -> (r: Result<Testcase<I>, Error>)
        ensures
            r is Ok <==> has_id(self.spec_enabled(), *id),
            r matches Err(e) ==> e is KeyNotFound,
            r matches Ok(t) ==> t.spec_id() == *id,
    {
        self.store.get_from::<true>(id)
    }
}

impl<I> Default for ObjectiveInMemoryCorpus<I> {
    fn default() -> (r: Self)
        ensures
            r.spec_enabled() == Seq::<Testcase<I>>::empty(),
    {
        Self::new()
    }
}

/// A corpus which does not store any testcase.
#[derive(Debug)]
pub struct NopCorpus<I> {
    scheduler: NopScheduler,
    phantom: PhantomData<I>,
}

impl<I> NopCorpus<I> {
    /// Creates a new [`NopCorpus`].
    pub fn new() -> (r: Self) {
        NopCorpus { scheduler: NopScheduler, phantom: PhantomData }
    }

    /// The scheduler, which schedules nothing.
    pub fn scheduler(&self) -> (r: &NopScheduler) {
        &self.scheduler
    }
}

impl<I> Corpus<I> for NopCorpus<I> {
    open spec fn spec_enabled(&self) -> Seq<Testcase<I>> {
        Seq::empty()
    }

    open spec fn spec_disabled(&self) -> Seq<Testcase<I>> {
        Seq::empty()
    }

    open spec fn spec_stores(&self) -> bool {
        false
    }

    fn count(&self) -> (r: usize) {
        0
    }

    fn count_disabled(&self) -> (r: usize) {
        0
    }

    fn count_all(&self) -> (r: usize) {
        0
    }

    fn add_shared<const ENABLED: bool>(&mut self, _testcase: Testcase<I>) -> (r: Result<TestcaseId, Error>) {
        Err(Error::Unsupported("Unsupported by NopCorpus".to_string()))
    }

    fn get_from<const ENABLED: bool>(&self, _id: &TestcaseId) -> (r: Result<Testcase<I>, Error>) {
        Err(Error::Unsupported("Unsupported by NopCorpus".to_string()))
    }
}

/// The corpus whose testcases are saved on disk, one file per testcase.
/// It keeps their ids and tells where each file goes; the files themselves
/// are written and read by the caller.
#[derive(Debug)]
pub struct OnDiskCorpus<I, SC> {
    store: OnDiskStore,
    scheduler: SC,
    phantom: PhantomData<I>,
}

impl<I, SC> OnDiskCorpus<I, SC> {
    /// The store of ids.
    pub closed spec fn spec_store(&self) -> OnDiskStore {
        self.store
    }

    /// The scheduler.
    pub closed spec fn spec_scheduler(&self) -> SC {
        self.scheduler
    }

    /// Create a new on-disk corpus rooted at `root`, naming files by testcase id.
    pub fn new(root: String, scheduler: SC) -> (r: Result<Self, Error>)
        ensures
            r matches Ok(c) && c.spec_store().spec_root_dir() == root@
                && c.spec_store().spec_filename_format() is Id
                && c.spec_store().spec_enabled() == Seq::<TestcaseId>::empty()
                && c.spec_store().spec_disabled() == Seq::<TestcaseId>::empty() && c.spec_scheduler()
                == scheduler,
    {
        Self::with_filename_format(root, TestcaseFilenameFormat::Id, scheduler)
    }

    /// Create a new on-disk corpus rooted at `root`, naming files with `filename_format`.
    pub fn with_filename_format(root: String, filename_format: TestcaseFilenameFormat, scheduler: SC) -> (r: Result<
        Self,
        Error,
    >)
        ensures
            r matches Ok(c) && c.spec_store().spec_root_dir() == root@
                && c.spec_store().spec_filename_format() == filename_format
                && c.spec_store().spec_enabled() == Seq::<TestcaseId>::empty()
                && c.spec_store().spec_disabled() == Seq::<TestcaseId>::empty() && c.spec_scheduler()
                == scheduler,
    {
        Ok(OnDiskCorpus { store: OnDiskStore::new(root, filename_format), scheduler, phantom: PhantomData })
    }

    /// Get a builder for this corpus, rooted at `root`, using the given scheduler.
    pub fn builder_from_dir(root: String, scheduler: SC) -> (r: OnDiskCorpusBuilder<I, SC>)
        ensures
            r.spec_config().spec_root_dir() == Some(root@),
            r.spec_config().spec_filename_format() is Id,
            r.spec_scheduler() == scheduler,
    {
        OnDiskCorpusBuilder { config: OnDiskStoreBuilder::from_root(root), scheduler, phantom: PhantomData }
    }

    /// The store of ids.
    pub fn store(&self) -> (r: &OnDiskStore)
        ensures
            *r == self.spec_store(),
    {
        &self.store
    }

    /// The scheduler.
    pub fn scheduler(&self) -> (r: &SC)
        ensures
            *r == self.spec_scheduler(),
    {
        &self.scheduler
    }

    /// The number of enabled testcases.
    pub fn count(&self) -> (r: usize)
        ensures
            r == self.spec_store().spec_enabled().len(),
    {
        self.store.count()
    }
}

impl<I, SC: Scheduler> OnDiskCorpus<I, SC> {
    /// Records a testcase. When it is newly stored, the scheduler is told
    /// about it and the path its input is to be saved at is returned.
    pub fn add_shared<const ENABLED: bool>(&mut self, testcase: &Testcase<I>) -> (r: (TestcaseId, Option<String>))
        ensures
            r.0 == testcase.spec_id(),
            ({
                let side = if ENABLED {
                    old(self).spec_store().spec_enabled()
                } else {
                    old(self).spec_store().spec_disabled()
                };
                &&& side.contains(r.0) ==> r.1 is None && final(self).spec_store() == old(
                    self,
                ).spec_store() && final(self).spec_scheduler() == old(self).spec_scheduler()
                &&& !side.contains(r.0) ==> r.1 is Some && final(self).spec_scheduler().spec_ids()
                    == if old(self).spec_scheduler().spec_records_ids() {
                    old(self).spec_scheduler().spec_ids().push(r.0)
                } else {
                    old(self).spec_scheduler().spec_ids()
                } && final(self).spec_scheduler().spec_current() == old(
                    self,
                ).spec_scheduler().spec_current() && (if ENABLED {
                    final(self).spec_store().spec_enabled() == old(self).spec_store().spec_enabled().push(r.0)
                        && final(self).spec_store().spec_disabled() == old(self).spec_store().spec_disabled()
                } else {
                    final(self).spec_store().spec_disabled() == old(self).spec_store().spec_disabled().push(r.0)
                        && final(self).spec_store().spec_enabled() == old(self).spec_store().spec_enabled()
                })
            }),
            final(self).spec_store().spec_root_dir() == old(self).spec_store().spec_root_dir(),
            final(self).spec_store().spec_filename_format() == old(self).spec_store().spec_filename_format(),
            r.1 matches Some(p) ==> p@ == crate::paths::spec_path_join(
                old(self).spec_store().spec_root_dir(),
                old(self).spec_store().spec_filename_format().spec_filename(r.0),
            ),
    {
        let id = *testcase.id();
        match self.store.add_shared::<ENABLED>(id) {
            StorageResult::Stored(id) => {
                let _ = self.scheduler.on_add(id);
                let path = self.store.testcase_path(id);
                (id, Some(path))
            },
            StorageResult::Duplicate(id) => (id, None),
        }
    }
}

/// An on-disk corpus of objectives.
#[derive(Debug)]
pub struct ObjectiveOnDiskCorpus<I> {
    store: OnDiskStore,
    phantom: PhantomData<I>,
}

impl<I> ObjectiveOnDiskCorpus<I> {
    /// The store of ids.
    pub closed spec fn spec_store(&self) -> OnDiskStore {
        self.store
    }

    /// Create a new on-disk objective corpus rooted at `root`.
    pub fn new(root: String, filename_format: TestcaseFilenameFormat) -> (r: Result<Self, Error>)
        ensures
            r matches Ok(c) && c.spec_store().spec_root_dir() == root@
                && c.spec_store().spec_filename_format() == filename_format
                && c.spec_store().spec_enabled() == Seq::<TestcaseId>::empty(),
    {
        Ok(ObjectiveOnDiskCorpus { store: OnDiskStore::new(root, filename_format), phantom: PhantomData })
    }

    /// Get a builder for this corpus, rooted at `root`.
    pub fn builder_from_dir(root: String) -> (r: ObjectiveOnDiskCorpusBuilder<I>)
        ensures
            r.spec_config().spec_root_dir() == Some(root@),
    {
        ObjectiveOnDiskCorpusBuilder { config: OnDiskStoreBuilder::from_root(root), phantom: PhantomData }
    }

    /// The store of ids.
    pub fn store(&self) -> (r: &OnDiskStore)
        ensures
            *r == self.spec_store(),
    {
        &self.store
    }
}

/// Builder of an [`OnDiskCorpus`].
#[derive(Debug)]
pub struct OnDiskCorpusBuilder<I, SC> {
    config: OnDiskStoreBuilder,
    scheduler: SC,
    phantom: PhantomData<I>,
}

impl<I, SC> OnDiskCorpusBuilder<I, SC> {
    /// The store configuration.
    pub closed spec fn spec_config(&self) -> OnDiskStoreBuilder {
        self.config
    }

    /// The scheduler.
    pub closed spec fn spec_scheduler(&self) -> SC {
        self.scheduler
    }

    /// Set the scheduler.
    pub fn scheduler<SC2>(self, scheduler: SC2) -> (r: OnDiskCorpusBuilder<I, SC2>)
        ensures
            r.spec_config() == self.spec_config(),
            r.spec_scheduler() == scheduler,
    {
        OnDiskCorpusBuilder { config: self.config, scheduler, phantom: PhantomData }
    }

    /// Set the root directory, where the testcases will be stored.
    pub fn root_dir(self, root_dir: String) -> (r: Self)
        ensures
            r.spec_config().spec_root_dir() == Some(root_dir@),
            r.spec_config().spec_filename_format() == self.spec_config().spec_filename_format(),
            r.spec_scheduler() == self.spec_scheduler(),
    {
        let mut b = self;
        b.config.root_dir(root_dir);
        b
    }

    /// Set the on-disk filename format.
    pub fn filename_format(self, filename_format: TestcaseFilenameFormat) -> (r: Self)
        ensures
            r.spec_config().spec_filename_format() == filename_format,
            r.spec_config().spec_root_dir() == self.spec_config().spec_root_dir(),
            r.spec_scheduler() == self.spec_scheduler(),
    {
        let mut b = self;
        b.config.filename_format(filename_format);
        b
    }

    /// Build the corpus. The root directory must be set.
    pub fn build(self) -> (r: Result<OnDiskCorpus<I, SC>, Error>)
        ensures
            r is Ok <==> self.spec_config().spec_root_dir() is Some,
            r matches Err(e) ==> e is IllegalArgument,
            r matches Ok(c) ==> Some(c.spec_store().spec_root_dir()) == self.spec_config().spec_root_dir()
                && c.spec_store().spec_filename_format() == self.spec_config().spec_filename_format()
                && c.spec_scheduler() == self.spec_scheduler(),
    {
        let store = self.config.build();
        match store {
            Ok(store) => Ok(OnDiskCorpus { store, scheduler: self.scheduler, phantom: PhantomData }),
            Err(e) => Err(e),
        }
    }
}

impl<I> OnDiskCorpusBuilder<I, NopScheduler> {
    /// A builder with no root directory yet, id file names and no scheduling.
    pub fn new() -> (r: Self)
        ensures
            r.spec_config().spec_root_dir() is None,
            r.spec_config().spec_filename_format() is Id,
    {
        OnDiskCorpusBuilder { config: OnDiskStoreBuilder::new(), scheduler: NopScheduler, phantom: PhantomData }
    }
}

/// Builder of an [`ObjectiveOnDiskCorpus`].
#[derive(Debug)]
pub struct ObjectiveOnDiskCorpusBuilder<I> {
    config: OnDiskStoreBuilder,
    phantom: PhantomData<I>,
}

impl<I> ObjectiveOnDiskCorpusBuilder<I> {
    /// The store configuration.
    pub closed spec fn spec_config(&self) -> OnDiskStoreBuilder {
        self.config
    }

    /// Set the on-disk filename format.
    pub fn filename_format(self, filename_format: TestcaseFilenameFormat) -> (r: Self)
        ensures
            r.spec_config().spec_filename_format() == filename_format,
            r.spec_config().spec_root_dir() == self.spec_config().spec_root_dir(),
    {
        let mut b = self;
        b.config.filename_format(filename_format);
        b
    }

    /// Build the corpus. The root directory must be set.
    pub fn build(self) -> (r: Result<ObjectiveOnDiskCorpus<I>, Error>)
        ensures
            r is Ok <==> self.spec_config().spec_root_dir() is Some,
            r matches Err(e) ==> e is IllegalArgument,
            r matches Ok(c) ==> Some(c.spec_store().spec_root_dir()) == self.spec_config().spec_root_dir()
                && c.spec_store().spec_filename_format() == self.spec_config().spec_filename_format(),
    {
        match self.config.build() {
            Ok(store) => Ok(ObjectiveOnDiskCorpus { store, phantom: PhantomData }),
            Err(e) => Err(e),
        }
    }
}

} // verus!
