//! Stores keep the testcases of a corpus, enabled or disabled.
use vstd::prelude::*;
use crate::corpus::testcase::{Testcase, TestcaseFilenameFormat, TestcaseId};
use crate::error::Error;
use crate::paths::{path_join, spec_path_join};

verus! {

/// The outcome of storing a testcase.
#[derive(Debug, Clone, Copy, PartialEq, Eq, Structural)]
pub enum StorageResult {
    /// The testcase was stored under this id.
    Stored(TestcaseId),
    /// A testcase with this id was already stored; nothing changed.
    Duplicate(TestcaseId),
}

impl StorageResult {
    /// The id of the testcase, stored now or before.
    pub fn id(&self) -> (r: TestcaseId)
        ensures
            r == match *self {
                StorageResult::Stored(id) => id,
                StorageResult::Duplicate(id) => id,
            },
    {
        match self {
            StorageResult::Stored(id) => *id,
            StorageResult::Duplicate(id) => *id,
        }
    }
}

/// The ids of a sequence of testcases.
pub open spec fn ids_of<I>(s: Seq<Testcase<I>>) -> Seq<TestcaseId> {
    s.map_values(|t: Testcase<I>| t.spec_id())
}

/// Whether some testcase of `s` has the id `id`.
pub open spec fn has_id<I>(s: Seq<Testcase<I>>, id: TestcaseId) -> bool {
    exists|k: int| 0 <= k < s.len() && (#[trigger] s[k]).spec_id() == id
}

/// The position of the testcase with id `id` in `v`, if any.
fn position_of<I>(v: &Vec<Testcase<I>>, id: &TestcaseId) -> (r: Option<usize>)
    ensures
        r matches Some(k) ==> k < v@.len() && v@[k as int].spec_id() == *id,
        r is None <==> !has_id(v@, *id),
{
    let mut k: usize = 0;
    while k < v.len()
        invariant
            0 <= k <= v@.len(),
            forall|j: int| 0 <= j < k ==> (#[trigger] v@[j]).spec_id() != *id,
        decreases v@.len() - k,
    {
        if v[k].id().0 == id.0 {
            return Some(k);
        }
        k = k + 1;
    }
    None
}

/// The position of `id` in `v`, if any.
fn position_of_id(v: &Vec<TestcaseId>, id: &TestcaseId) -> (r: Option<usize>)
    ensures
        r matches Some(k) ==> k < v@.len() && v@[k as int] == *id,
        r is None <==> !v@.contains(*id),
{
    let mut k: usize = 0;
    while k < v.len()
        invariant
            0 <= k <= v@.len(),
            forall|j: int| 0 <= j < k ==> v@[j] != *id,
        decreases v@.len() - k,
    {
        if v[k].0 == id.0 {
            return Some(k);
        }
        k = k + 1;
    }
    None
}

/// A store keeping the testcases in memory, in the order they were added.
#[derive(Debug)]
pub struct InMemoryStore<I> {
    enabled: Vec<Testcase<I>>,
    disabled: Vec<Testcase<I>>,
}

impl<I> InMemoryStore<I> {
    /// The enabled testcases.
    pub closed spec fn spec_enabled(&self) -> Seq<Testcase<I>> {
        self.enabled@
    }

    /// The disabled testcases.
    pub closed spec fn spec_disabled(&self) -> Seq<Testcase<I>> {
        self.disabled@
    }

    /// No id occurs twice among the enabled testcases, nor among the disabled ones.
    #[verifier::type_invariant]
    closed spec fn inv(&self) -> bool {
        &&& ids_of(self.enabled@).no_duplicates()
        &&& ids_of(self.disabled@).no_duplicates()
    }

    /// An empty store.
    pub fn new() -> (r: Self)
        ensures
            r.spec_enabled() == Seq::<Testcase<I>>::empty(),
            r.spec_disabled() == Seq::<Testcase<I>>::empty(),
    {
        let r = InMemoryStore { enabled: Vec::new(), disabled: Vec::new() };
        assert(ids_of(r.enabled@) =~= Seq::<TestcaseId>::empty());
        assert(ids_of(r.disabled@) =~= Seq::<TestcaseId>::empty());
        r
    }

    /// The number of enabled testcases.
    pub fn count(&self) -> (r: usize)
        ensures
            r == self.spec_enabled().len(),
    {
        self.enabled.len()
    }

    /// The number of disabled testcases.
    pub fn count_disabled(&self) -> (r: usize)
        ensures
            r == self.spec_disabled().len(),
    {
        self.disabled.len()
    }

    /// The number of all testcases, saturating at the largest `usize`.
    pub fn count_all(&self) -> (r: usize)
        ensures
            r == if self.spec_enabled().len() + self.spec_disabled().len() > usize::MAX {
                usize::MAX as int
            } else {
                (self.spec_enabled().len() + self.spec_disabled().len()) as int
            },
    {
        self.enabled.len().saturating_add(self.disabled.len())
    }

    /// Adds a testcase, enabled or disabled. A testcase whose id is already
    /// stored on the same side is not added again.
    pub fn add_shared<const ENABLED: bool>(&mut self, testcase: Testcase<I>) -> (r: Result<StorageResult, Error>)
        ensures
            ({
                let id = testcase.spec_id();
                let side = if ENABLED {
                    old(self).spec_enabled()
                } else {
                    old(self).spec_disabled()
                };
                &&& r is Ok
                &&& has_id(side, id) ==> r == Ok::<StorageResult, Error>(StorageResult::Duplicate(id))
                    && *final(self) == *old(self)
                &&& !has_id(side, id) ==> {
                    &&& r == Ok::<StorageResult, Error>(StorageResult::Stored(id))
                    &&& ENABLED ==> final(self).spec_enabled() == old(self).spec_enabled().push(
                        testcase,
                    ) && final(self).spec_disabled() == old(self).spec_disabled()
                    &&& !ENABLED ==> final(self).spec_disabled() == old(self).spec_disabled().push(
                        testcase,
                    ) && final(self).spec_enabled() == old(self).spec_enabled()
                }
            }),
    {
        proof {
            use_type_invariant(&*self);
        }
        let id = *testcase.id();
        if ENABLED {
            if position_of(&self.enabled, &id).is_some() {
                return Ok(StorageResult::Duplicate(id));
            }
            let mut enabled: Vec<Testcase<I>> = Vec::new();
            std::mem::swap(&mut enabled, &mut self.enabled);
            let ghost before = enabled@;
            enabled.push(testcase);
            proof {
                lemma_push_keeps_distinct(before, testcase);
            }
            self.enabled = enabled;
        } else {
            if position_of(&self.disabled, &id).is_some() {
                return Ok(StorageResult::Duplicate(id));
            }
            let mut disabled: Vec<Testcase<I>> = Vec::new();
            std::mem::swap(&mut disabled, &mut self.disabled);
            let ghost before = disabled@;
            disabled.push(testcase);
            proof {
                lemma_push_keeps_distinct(before, testcase);
            }
            self.disabled = disabled;
        }
        Ok(StorageResult::Stored(id))
    }

    /// Gets the testcase with the given id: among the enabled ones, or, when
    /// `ENABLED` is false, among the enabled then the disabled ones.
    pub fn get_from<const ENABLED: bool>(&self, id: &TestcaseId) -> (r: Result<Testcase<I>, Error>)
        ensures
            r is Ok <==> has_id(self.spec_enabled(), *id) || (!ENABLED && has_id(
                self.spec_disabled(),
                *id,
            )),
            r matches Err(e) ==> e is KeyNotFound,
            r matches Ok(t) ==> t.spec_id() == *id && (if has_id(self.spec_enabled(), *id) {
                exists|k: int|
                    0 <= k < self.spec_enabled().len() && (#[trigger] self.spec_enabled()[k])
                        == t
            } else {
                exists|k: int|
                    0 <= k < self.spec_disabled().len() && (#[trigger] self.spec_disabled()[k])
                        == t
            }),
    {
        match position_of(&self.enabled, id) {
            Some(k) => {
                let t = self.enabled[k].duplicate();
                assert(self.spec_enabled()[k as int] == t);
                Ok(t)
            },
            None => {
                if ENABLED {
                    Err(Error::KeyNotFound("Index not found".to_string()))
                } else {
                    match position_of(&self.disabled, id) {
                        Some(k) => {
                            let t = self.disabled[k].duplicate();
                            assert(self.spec_disabled()[k as int] == t);
                            Ok(t)
                        },
                        None => Err(Error::KeyNotFound("Index not found".to_string())),
                    }
                }
            },
        }
    }

    /// Moves the enabled testcase with the given id to the disabled ones.
    /// If a testcase with that id is already disabled, it is kept and the
    /// enabled one is dropped.
    pub fn disable(&mut self, id: &TestcaseId) -> (r: Result<(), Error>)
        ensures
            r is Ok <==> has_id(old(self).spec_enabled(), *id),
            r matches Err(e) ==> e is KeyNotFound,
            r is Err ==> *final(self) == *old(self),
            r is Ok ==> !has_id(final(self).spec_enabled(), *id) && has_id(
                final(self).spec_disabled(),
                *id,
            ),
            r is Ok ==> final(self).spec_enabled().len() + 1 == old(self).spec_enabled().len(),
    {
        proof {
            use_type_invariant(&*self);
        }
        match position_of(&self.enabled, id) {
            None => Err(Error::KeyNotFound("Index not found".to_string())),
            Some(k) => {
                let mut enabled: Vec<Testcase<I>> = Vec::new();
                std::mem::swap(&mut enabled, &mut self.enabled);
                let ghost before = enabled@;
                let tc = enabled.remove(k);
                proof {
                    lemma_remove_keeps_distinct(before, k as int);
                    assert forall|j: int| 0 <= j < enabled@.len() implies (#[trigger] enabled@[j]).spec_id() != *id by {
                        if j < k {
                            assert(ids_of(before)[j] != ids_of(before)[k as int]);
                        } else {
                            assert(enabled@[j] == before[j + 1]);
                            assert(ids_of(before)[j + 1] != ids_of(before)[k as int]);
                        }
                    }
                }
                self.enabled = enabled;
                let present = position_of(&self.disabled, id);
                if present.is_none() {
                    let mut disabled: Vec<Testcase<I>> = Vec::new();
                    std::mem::swap(&mut disabled, &mut self.disabled);
                    let ghost before_d = disabled@;
                    disabled.push(tc);
                    proof {
                        lemma_push_keeps_distinct(before_d, tc);
                        assert(disabled@[disabled@.len() - 1] == tc);
                    }
                    self.disabled = disabled;
                }
                Ok(())
            },
        }
    }
}

/// Adding a testcase with a new id keeps the ids distinct.
proof fn lemma_push_keeps_distinct<I>(s: Seq<Testcase<I>>, t: Testcase<I>)
    requires
        ids_of(s).no_duplicates(),
        !has_id(s, t.spec_id()),
    ensures
        ids_of(s.push(t)).no_duplicates(),
{
    assert(ids_of(s.push(t)) =~= ids_of(s).push(t.spec_id()));
    assert forall|i: int, j: int|
        0 <= i < ids_of(s.push(t)).len() && 0 <= j < ids_of(s.push(t)).len() && i != j implies ids_of(
        s.push(t),
    )[i] != ids_of(s.push(t))[j] by {
        if i < s.len() && j < s.len() {
        } else if i == s.len() {
            assert(s[j].spec_id() != t.spec_id());
        } else {
            assert(s[i].spec_id() != t.spec_id());
        }
    }
}

/// Removing a testcase keeps the ids distinct.
proof fn lemma_remove_keeps_distinct<I>(s: Seq<Testcase<I>>, k: int)
    requires
        ids_of(s).no_duplicates(),
        0 <= k < s.len(),
    ensures
        ids_of(s.remove(k)).no_duplicates(),
{
    assert(ids_of(s.remove(k)) =~= ids_of(s).remove(k));
    assert forall|i: int, j: int|
        0 <= i < ids_of(s.remove(k)).len() && 0 <= j < ids_of(s.remove(k)).len() && i != j implies ids_of(
        s.remove(k),
    )[i] != ids_of(s.remove(k))[j] by {
        let i2 = if i < k {
            i
        } else {
            i + 1
        };
        let j2 = if j < k {
            j
        } else {
            j + 1
        };
        assert(ids_of(s)[i2] != ids_of(s)[j2]);
    }
}

/// A store that keeps the ids of the testcases and names the files their
/// inputs are saved to, below a root directory. Writing and reading the
/// files is left to the caller.
#[derive(Debug, Clone)]
pub struct OnDiskStore {
    root_dir: String,
    filename_format: TestcaseFilenameFormat,
    enabled: Vec<TestcaseId>,
    disabled: Vec<TestcaseId>,
}

impl OnDiskStore {
    /// The root directory.
    pub closed spec fn spec_root_dir(&self) -> Seq<char> {
        self.root_dir@
    }

    /// The format of the file names.
    pub closed spec fn spec_filename_format(&self) -> TestcaseFilenameFormat {
        self.filename_format
    }

    /// The enabled ids.
    pub closed spec fn spec_enabled(&self) -> Seq<TestcaseId> {
        self.enabled@
    }

    /// The disabled ids.
    pub closed spec fn spec_disabled(&self) -> Seq<TestcaseId> {
        self.disabled@
    }

    /// An empty store rooted at `root`. That `root` is an existing directory
    /// is checked by the caller.
    pub fn new(root: String, filename_format: TestcaseFilenameFormat) -> (r: Self)
        ensures
            r.spec_root_dir() == root@,
            r.spec_filename_format() == filename_format,
            r.spec_enabled() == Seq::<TestcaseId>::empty(),
            r.spec_disabled() == Seq::<TestcaseId>::empty(),
    {
        OnDiskStore { root_dir: root, filename_format, enabled: Vec::new(), disabled: Vec::new() }
    }

    /// Instantiate an [`OnDiskStoreBuilder`].
    pub fn builder() -> (r: OnDiskStoreBuilder)
        ensures
            r.spec_root_dir() is None,
            r.spec_filename_format() is Id,
    {
        OnDiskStoreBuilder::new()
    }

    /// Get the root path of the store.
    pub fn root_path(&self) -> (r: &str)
        ensures
            r@ == self.spec_root_dir(),
    {
        self.root_dir.as_str()
    }

    /// The path of the file holding the input of the testcase `id`.
    pub fn testcase_path(&self, id: TestcaseId) -> (r: String)
        ensures
            r@ == spec_path_join(self.spec_root_dir(), self.spec_filename_format().spec_filename(id)),
    {
        let name = self.filename_format.to_filename(&id);
        path_join(self.root_dir.as_str(), name.as_str())
    }

    /// The number of enabled testcases.
    pub fn count(&self) -> (r: usize)
        ensures
            r == self.spec_enabled().len(),
    {
        self.enabled.len()
    }

    /// The number of disabled testcases.
    pub fn count_disabled(&self) -> (r: usize)
        ensures
            r == self.spec_disabled().len(),
    {
        self.disabled.len()
    }

    /// The number of all testcases, saturating at the largest `usize`.
    pub fn count_all(&self) -> (r: usize)
        ensures
            r == if self.spec_enabled().len() + self.spec_disabled().len() > usize::MAX {
                usize::MAX as int
            } else {
                (self.spec_enabled().len() + self.spec_disabled().len()) as int
            },
    {
        self.enabled.len().saturating_add(self.disabled.len())
    }

    /// Whether no testcase is enabled.
    pub fn is_empty(&self) -> (r: bool)
        ensures
            r == (self.spec_enabled().len() == 0),
    {
        self.enabled.len() == 0
    }

    /// Records a testcase id, enabled or disabled. When the result is
    /// [`StorageResult::Stored`], the input is to be saved at
    /// [`Self::testcase_path`].
    pub fn add_shared<const ENABLED: bool>(&mut self, id: TestcaseId) -> (r: StorageResult)
        ensures
            ({
                let side = if ENABLED {
                    old(self).spec_enabled()
                } else {
                    old(self).spec_disabled()
                };
                &&& side.contains(id) ==> r == StorageResult::Duplicate(id) && *final(self)
                    == *old(self)
                &&& !side.contains(id) ==> r == StorageResult::Stored(id) && (if ENABLED {
                    final(self).spec_enabled() == old(self).spec_enabled().push(id)
                        && final(self).spec_disabled() == old(self).spec_disabled()
                } else {
                    final(self).spec_disabled() == old(self).spec_disabled().push(id)
                        && final(self).spec_enabled() == old(self).spec_enabled()
                })
            }),
            final(self).spec_root_dir() == old(self).spec_root_dir(),
            final(self).spec_filename_format() == old(self).spec_filename_format(),
    {
        if ENABLED {
            if position_of_id(&self.enabled, &id).is_some() {
                return StorageResult::Duplicate(id);
            }
            self.enabled.push(id);
        } else {
            if position_of_id(&self.disabled, &id).is_some() {
                return StorageResult::Duplicate(id);
            }
            self.disabled.push(id);
        }
        StorageResult::Stored(id)
    }

    /// The path of the stored testcase with the given id: among the enabled
    /// ones, or, when `ENABLED` is false, among the enabled and disabled ones.
    pub fn get_from<const ENABLED: bool>(&self, id: &TestcaseId) -> (r: Result<String, Error>)
        ensures
            r is Ok <==> self.spec_enabled().contains(*id) || (!ENABLED && self.spec_disabled().contains(*id)),
            r matches Err(e) ==> e is KeyNotFound,
            r matches Ok(p) ==> p@ == spec_path_join(
                self.spec_root_dir(),
                self.spec_filename_format().spec_filename(*id),
            ),
    {
        let found = if ENABLED {
            position_of_id(&self.enabled, id).is_some()
        } else {
            position_of_id(&self.enabled, id).is_some() || position_of_id(&self.disabled, id).is_some()
        };
        if found {
            Ok(self.testcase_path(*id))
        } else {
            Err(Error::KeyNotFound("Index not found".to_string()))
        }
    }

    /// Moves an enabled id to the disabled ones.
    pub fn disable(&mut self, id: &TestcaseId) -> (r: Result<(), Error>)
        ensures
            r is Ok <==> old(self).spec_enabled().contains(*id),
            r matches Err(e) ==> e is KeyNotFound,
            r is Err ==> *final(self) == *old(self),
            r is Ok ==> exists|k: int|
                0 <= k < old(self).spec_enabled().len() && old(self).spec_enabled()[k] == *id
                    && final(self).spec_enabled() == old(self).spec_enabled().remove(k),
            r is Ok ==> final(self).spec_disabled().contains(*id),
    {
        match position_of_id(&self.enabled, id) {
            None => Err(Error::KeyNotFound("Index not found".to_string())),
            Some(k) => {
                let ghost before = self.enabled@;
                let removed = self.enabled.remove(k);
                assert(self.enabled@ == before.remove(k as int));
                assert(old(self).spec_enabled()[k as int] == *id);
                if position_of_id(&self.disabled, id).is_none() {
                    self.disabled.push(removed);
                    assert(self.disabled@[self.disabled@.len() - 1] == *id);
                }
                Ok(())
            },
        }
    }
}

/// A builder for [`OnDiskStore`].
#[derive(Default, Debug, Clone)]
pub struct OnDiskStoreBuilder {
    root_dir: Option<String>,
    filename_format: TestcaseFilenameFormat,
}

impl OnDiskStoreBuilder {
    /// The root directory, if set.
    pub closed spec fn spec_root_dir(&self) -> Option<Seq<char>> {
        match self.root_dir {
            Some(s) => Some(s@),
            None => None,
        }
    }

    /// The format of the file names.
    pub closed spec fn spec_filename_format(&self) -> TestcaseFilenameFormat {
        self.filename_format
    }

    /// Create a new builder, with no root directory and id file names.
    pub fn new() -> (r: Self)
        ensures
            r.spec_root_dir() is None,
            r.spec_filename_format() is Id,
    {
        OnDiskStoreBuilder { root_dir: None, filename_format: TestcaseFilenameFormat::Id }
    }

    /// A builder rooted at `root`, with id file names.
    pub fn from_root(root: String) -> (r: Self)
        ensures
            r.spec_root_dir() == Some(root@),
            r.spec_filename_format() is Id,
    {
        OnDiskStoreBuilder { root_dir: Some(root), filename_format: TestcaseFilenameFormat::Id }
    }

    /// Set the root directory, where the testcases will be stored; gives
    /// the builder back, for chained calls.
    pub fn root_dir(&mut self, root_dir: String) -> (r: &mut Self)
        ensures
            r.spec_root_dir() == Some(root_dir@),
            r.spec_filename_format() == old(self).spec_filename_format(),
            *final(self) == *final(r),
    {
        self.root_dir = Some(root_dir);
        self
    }

    /// Set the on-disk filename format; gives the builder back, for chained calls.
    pub fn filename_format(&mut self, filename_format: TestcaseFilenameFormat) -> (r: &mut Self)
        ensures
            r.spec_filename_format() == filename_format,
            r.spec_root_dir() == old(self).spec_root_dir(),
            *final(self) == *final(r),
    {
        self.filename_format = filename_format;
        self
    }

    /// Build an [`OnDiskStore`]. The root directory must be set.
    pub fn build(&self) -> (r: Result<OnDiskStore, Error>)
        ensures
            r is Ok <==> self.spec_root_dir() is Some,
            r matches Err(e) ==> (e matches Error::IllegalArgument(m) && m@ == "Root directory not set"@),
            r matches Ok(s) ==> Some(s.spec_root_dir()) == self.spec_root_dir()
                && s.spec_filename_format() == self.spec_filename_format() && s.spec_enabled()
                == Seq::<TestcaseId>::empty() && s.spec_disabled() == Seq::<TestcaseId>::empty(),
    {
        match &self.root_dir {
            Some(root) => Ok(OnDiskStore::new(root.clone(), self.filename_format.duplicate())),
            None => Err(Error::IllegalArgument("Root directory not set".to_string())),
        }
    }
}

} // verus!
