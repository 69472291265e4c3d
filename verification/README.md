# libaflmm

Building blocks of a coverage-guided fuzzer, written in Verus and proved
against their contracts.

- `src/` is the verified library: hit-count classification and coverage
  maps, map/list/hash/bool feedbacks and their combinations, corpora,
  stores and schedulers, token dictionaries and token mutations, the
  cmplog metadata, calibration, the AFL++ forkserver handshake and run
  state, the controller's registry of workers, worker-side testcase
  sharing, and the bookkeeping of launched instances. Each type has a
  mathematical model (a view or `spec` accessors); the properties that
  span several calls are stated as public proof functions (`lemma_*`).
- `app/` is ordinary Rust around it: spawning the forkserver and talking
  to it over pipes, creating the session's directories, reaping child
  processes, driving a calibration's runs and computing its stability
  figure, printing statistics, and the serde/postcard copies of the
  library's types.
- `tests/` runs the library on concrete values.

Calls into outside crates from `src/` (std's paths, `Rc`, `Instant`, and
hashbrown's `HashSet`) go through small trusted wrappers whose contracts
say what the outside code does; everything else is proved.

## What the library leaves out

- Corpora backed by a cache in front of an on-disk store (combined,
  in-memory-plus-on-disk and cached on-disk corpora, their builders and
  configuration) and the standard in-memory/on-disk store and map
  newtypes: the cache policies they are built on are not part of this
  code base. `InMemoryCorpus` and `OnDiskCorpus` (with their stores) are
  provided.
- The Nautilus grammar feedback: the grammar engine it needs is not part of
  this code base.
- The single-group launcher setters `timeout`, `worker_layout_fn`, `timer`,
  `state_builder` and `launch_forkserver`: they configure a group builder
  and runtimes that are not part of this code base. Groups are registered
  through `WorkerRegistry::register_group` and `PendingGroup`/
  `ConfiguredGroup`.
- Performance statistics, the web monitor and the SIMD map feedback.

Some types are narrower than a fully generic design would make them:
`MapFeedback` works on maps of `u8` entries; `Testcase` is shared with
`duplicate` (which keeps the same input) rather than cloned; a scheduler's
`next` gives `Ok(None)` when there is nothing to schedule.
