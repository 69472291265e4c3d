//! Corpora hold testcases; schedulers pick the next one to fuzz.

pub mod collection;
pub mod schedulers;
pub mod store;
pub mod testcase;

pub use schedulers::{NopScheduler, QueueScheduler, RandScheduler, Scheduler};
pub use testcase::{Testcase, TestcaseFilenameFormat, TestcaseId};
pub use store::{InMemoryStore, OnDiskStore, OnDiskStoreBuilder, StorageResult};
pub use collection::{
    Corpus, InMemoryCorpus, NopCorpus, ObjectiveInMemoryCorpus, ObjectiveOnDiskCorpus,
    ObjectiveOnDiskCorpusBuilder, OnDiskCorpus, OnDiskCorpusBuilder, ScheduledCorpus,
};
