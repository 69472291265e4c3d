//! How an execution of the target ended, hooks around the executor, and the
//! standard executor that runs a harness function in-process.
use core::marker::PhantomData;
use core::time::Duration;
use vstd::prelude::*;
use crate::error::Error;

pub mod forkserver;

verus! {

/// How an execution of the target finished.
#[derive(Debug, Clone, Copy, PartialEq, Eq, Structural)]
pub enum ExitKind {
    /// The run exited normally.
    Normal,
    /// The run resulted in a target crash.
    Crash,
    /// The run hit an out-of-memory condition.
    Oom,
    /// The run timed out.
    Timeout,
}

/// The hook that runs before and after the executor runs the target.
pub trait ExecutorHook<I, S>: Sized {
    /// Whether initialising can take the hook from `self` to `after` and the
    /// state from `state` to `state_after`.
    spec fn spec_init(&self, state: S, after: Self, state_after: S) -> bool;

    /// Whether the hook run before the target runs on `input` can take the
    /// hook from `self` to `after` and the state from `state` to `state_after`.
    spec fn spec_pre_exec(&self, state: S, input: I, after: Self, state_after: S) -> bool;

    /// Whether the hook run after the target ran on `input` can take the
    /// hook from `self` to `after` and the state from `state` to `state_after`.
    spec fn spec_post_exec(&self, state: S, input: I, after: Self, state_after: S) -> bool;

    /// Init this hook
    fn init(&mut self, state: &mut S)
        ensures
            old(self).spec_init(*old(state), *final(self), *final(state)),
    ;

    /// The hook that runs before the target runs
    fn pre_exec(&mut self, state: &mut S, input: &I)
        ensures
            old(self).spec_pre_exec(*old(state), *input, *final(self), *final(state)),
    ;

    /// The hook that runs after the target ran
    fn post_exec(&mut self, state: &mut S, input: &I)
        ensures
            old(self).spec_post_exec(*old(state), *input, *final(self), *final(state)),
    ;
}

/// A tuple of executor hooks, run in order.
pub trait ExecutorHooksTuple<I, S>: Sized {
    /// Whether initialising all the hooks, in order, can take the tuple
    /// from `self` to `after` and the state from `state` to `state_after`.
    spec fn spec_init_all(&self, state: S, after: Self, state_after: S) -> bool;

    /// Whether running all the hooks before the target, in order, can take
    /// the tuple from `self` to `after` and the state from `state` to `state_after`.
    spec fn spec_pre_exec_all(&self, state: S, input: I, after: Self, state_after: S) -> bool;

    /// Whether running all the hooks after the target, in order, can take
    /// the tuple from `self` to `after` and the state from `state` to `state_after`.
    spec fn spec_post_exec_all(&self, state: S, input: I, after: Self, state_after: S) -> bool;

    /// Init these hooks
    fn init_all(&mut self, state: &mut S)
        ensures
            old(self).spec_init_all(*old(state), *final(self), *final(state)),
    ;

    /// The hooks that run before the target runs
    fn pre_exec_all(&mut self, state: &mut S, input: &I)
        ensures
            old(self).spec_pre_exec_all(*old(state), *input, *final(self), *final(state)),
    ;

    /// The hooks that run after the target ran
    fn post_exec_all(&mut self, state: &mut S, input: &I)
        ensures
            old(self).spec_post_exec_all(*old(state), *input, *final(self), *final(state)),
    ;
}

/// No hook: nothing changes.
impl<I, S> ExecutorHooksTuple<I, S> for () {
    open spec fn spec_init_all(&self, state: S, after: Self, state_after: S) -> bool {
        state_after == state
    }

    open spec fn spec_pre_exec_all(&self, state: S, input: I, after: Self, state_after: S) -> bool {
        state_after == state
    }

    open spec fn spec_post_exec_all(&self, state: S, input: I, after: Self, state_after: S) -> bool {
        state_after == state
    }

    fn init_all(&mut self, _state: &mut S) {
    }

    fn pre_exec_all(&mut self, _state: &mut S, _input: &I) {
    }

    fn post_exec_all(&mut self, _state: &mut S, _input: &I) {
    }
}

/// The head's hook runs, then the tail's hooks, on the state the head left.
impl<Head, Tail, I, S> ExecutorHooksTuple<I, S> for (Head, Tail) where
    Head: ExecutorHook<I, S>,
    Tail: ExecutorHooksTuple<I, S>,
 {
    open spec fn spec_init_all(&self, state: S, after: Self, state_after: S) -> bool {
        exists|mid: S|
            #[trigger] self.0.spec_init(state, after.0, mid) && self.1.spec_init_all(
                mid,
                after.1,
                state_after,
            )
    }

    open spec fn spec_pre_exec_all(&self, state: S, input: I, after: Self, state_after: S) -> bool {
        exists|mid: S|
            #[trigger] self.0.spec_pre_exec(state, input, after.0, mid) && self.1.spec_pre_exec_all(
                mid,
                input,
                after.1,
                state_after,
            )
    }

    open spec fn spec_post_exec_all(&self, state: S, input: I, after: Self, state_after: S) -> bool {
        exists|mid: S|
            #[trigger] self.0.spec_post_exec(state, input, after.0, mid)
                && self.1.spec_post_exec_all(mid, input, after.1, state_after)
    }

    fn init_all(&mut self, state: &mut S) {
        self.0.init(state);
        let ghost mid = *state;
        self.1.init_all(state);
        assert(old(self).0.spec_init(*old(state), self.0, mid));
    }

    fn pre_exec_all(&mut self, state: &mut S, input: &I) {
        self.0.pre_exec(state, input);
        let ghost mid = *state;
        self.1.pre_exec_all(state, input);
        assert(old(self).0.spec_pre_exec(*old(state), *input, self.0, mid));
    }

    fn post_exec_all(&mut self, state: &mut S, input: &I) {
        self.0.post_exec(state, input);
        let ghost mid = *state;
        self.1.post_exec_all(state, input);
        assert(old(self).0.spec_post_exec(*old(state), *input, self.0, mid));
    }
}

/// A standard executor, running a harness function in-process between the
/// hooks, with the given observers.
#[derive(Debug)]
pub struct StdExecutor<EH, H, I, O, S> {
    hooks: EH,
    harness: H,
    observers: O,
    timeout: Option<Duration>,
    initialized: bool,
    phantom: PhantomData<(I, S)>,
}

impl<EH, H, I, O, S> StdExecutor<EH, H, I, O, S> {
    /// Whether the hooks were initialised.
    pub closed spec fn spec_initialized(&self) -> bool {
        self.initialized
    }

    /// The time a run may take, if limited.
    pub closed spec fn spec_timeout(&self) -> Option<Duration> {
        self.timeout
    }

    /// The observers.
    pub closed spec fn spec_observers(&self) -> O {
        self.observers
    }

    /// The harness.
    pub closed spec fn spec_harness(&self) -> H {
        self.harness
    }

    /// The hooks.
    pub closed spec fn spec_hooks(&self) -> EH {
        self.hooks
    }

    /// An executor running `harness` between `hooks`, not initialised yet.
    pub fn with_hooks(_state: &S, hooks: EH, harness: H, observers: O, timeout: Option<Duration>) -> (r: Self)
        ensures
            !r.spec_initialized(),
            r.spec_timeout() == timeout,
            r.spec_observers() == observers,
            r.spec_hooks() == hooks,
    {
        StdExecutor { hooks, harness, observers, timeout, initialized: false, phantom: PhantomData }
    }

    /// The observers.
    pub fn observers(&self) -> (r: &O)
        ensures
            *r == self.spec_observers(),
    {
        &self.observers
    }

    /// The time a run may take, if limited.
    pub fn timeout(&self) -> (r: Option<Duration>)
        ensures
            r == self.spec_timeout(),
    {
        self.timeout
    }
}

impl<H, I, O, S> StdExecutor<(), H, I, O, S> {
    /// An executor running `harness`, without hooks.
    pub fn new(state: &S, harness: H, observers: O, timeout: Option<Duration>) -> (r: Self)
        ensures
            !r.spec_initialized(),
            r.spec_timeout() == timeout,
            r.spec_observers() == observers,
    {
        Self::with_hooks(state, (), harness, observers, timeout)
    }
}

impl<EH: ExecutorHooksTuple<I, S>, H: FnMut(&mut S, &I) -> Result<ExitKind, Error>, I, O, S> StdExecutor<
    EH,
    H,
    I,
    O,
    S,
> {
    /// Initialises the hooks, once; gives the timeout the runtime must arm
    /// the first time, `None` afterwards or when runs are not limited.
    pub fn init(&mut self, state: &mut S) -> (r: Option<Duration>)
        ensures
            final(self).spec_initialized(),
            r == if old(self).spec_initialized() {
                None
            } else {
                old(self).spec_timeout()
            },
            final(self).spec_timeout() == old(self).spec_timeout(),
            final(self).spec_observers() == old(self).spec_observers(),
            old(self).spec_initialized() ==> final(self).spec_hooks() == old(self).spec_hooks()
                && *final(state) == *old(state),
            !old(self).spec_initialized() ==> old(self).spec_hooks().spec_init_all(
                *old(state),
                final(self).spec_hooks(),
                *final(state),
            ),
    {
        if !self.initialized {
            self.hooks.init_all(state);
            self.initialized = true;
            self.timeout
        } else {
            None
        }
    }

    /// Runs the harness on `input`, between the hooks: the hooks before the
    /// run, the harness, whose result is the result, then, when the harness
    /// succeeded, the hooks after the run.
    pub fn execute_impl(&mut self, state: &mut S, input: &I) -> (r: Result<ExitKind, Error>)
        requires
            old(self).spec_initialized(),
            forall|s: &mut S, i: &I| #[trigger] call_requires(old(self).spec_harness(), (s, i)),
        ensures
            final(self).spec_initialized(),
            final(self).spec_timeout() == old(self).spec_timeout(),
            final(self).spec_observers() == old(self).spec_observers(),
            exists|s: &mut S| call_ensures(old(self).spec_harness(), (s, input), r),
            exists|hooks: EH, state_before_run: S|
                {
                    &&& #[trigger] old(self).spec_hooks().spec_pre_exec_all(
                        *old(state),
                        *input,
                        hooks,
                        state_before_run,
                    )
                    &&& r is Err ==> final(self).spec_hooks() == hooks
                    &&& r is Ok ==> exists|state_after_run: S|
                        #[trigger] hooks.spec_post_exec_all(
                            state_after_run,
                            *input,
                            final(self).spec_hooks(),
                            *final(state),
                        )
                },
    {
        self.hooks.pre_exec_all(state, input);
        let ghost hooks = self.hooks;
        let ghost state_before_run = *state;
        assert(old(self).spec_hooks().spec_pre_exec_all(*old(state), *input, hooks, state_before_run));
        assert(self.harness == old(self).harness);
        let ghost st = state;
        assert(call_requires(old(self).spec_harness(), (st, input)));
        let res = (self.harness)(state, input);
        assert(exists|s: &mut S| call_ensures(old(self).spec_harness(), (s, input), res));
        match res {
            Ok(kind) => {
                let ghost state_after_run = *state;
                self.hooks.post_exec_all(state, input);
                assert(hooks.spec_post_exec_all(state_after_run, *input, self.spec_hooks(), *state));
                Ok(kind)
            },
            Err(e) => Err(e),
        }
    }
}

} // verus!
