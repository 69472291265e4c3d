//! Feedbacks reduce the observations of a run to a single `is_interesting` value.
//! If a testcase is interesting, it may be added to a corpus.
use core::marker::PhantomData;
use vstd::prelude::*;
use crate::common::Named;
use crate::corpus::TestcaseId;
use crate::error::Error;
use crate::executors::ExitKind;

pub mod bool;
pub mod list;
pub mod map;
pub mod new_hash_feedback;
pub mod novelty;

pub use bool::BoolValueFeedback;
pub use list::{ListFeedback, ListFeedbackMetadata};
pub use map::{MapFeedback, MapFeedbackMetadata, MapIndexes, MapNoveltiesMetadata};
pub use new_hash_feedback::{HashSetState, NewHashFeedback, NewHashFeedbackMetadata};
pub use novelty::{
    AllIsNovel, DifferentIsNovel, IsNovel, MaxReducer, MinReducer, NextPow2IsNovel, NopReducer,
    OneOrFilledIsNovel, OrReducer, Reducer,
};

verus! {

/// Feedbacks evaluate the observers of a run. They reduce the information
/// provided by the observers to a value telling how interesting the run was.
pub trait Feedback<OT>: Named + Sized {
    /// Whether evaluating the run succeeds.
    spec fn spec_evaluates(&self, observers: OT, exit_kind: ExitKind) -> bool;

    /// The verdict on the run, when evaluating it succeeds.
    spec fn spec_is_interesting(&self, observers: OT, exit_kind: ExitKind) -> bool;

    /// Whether evaluating a run observed by `observers`, which ended as
    /// `exit_kind`, can take the feedback from `self` to `after`.
    spec fn spec_evaluation(&self, observers: OT, exit_kind: ExitKind, after: Self) -> bool;

    /// Whether the run is worth adding to the corpus.
    fn is_interesting(&mut self, observers: &OT, exit_kind: &ExitKind) -> (r: Result<bool, Error>)
        ensures
            r is Ok <==> old(self).spec_evaluates(*observers, *exit_kind),
            r matches Ok(b) ==> b == old(self).spec_is_interesting(*observers, *exit_kind),
            old(self).spec_evaluation(*observers, *exit_kind, *final(self)),
    ;

    /// Whether recording what the feedback learnt from a run observed by
    /// `observers`, whose input became `testcase_id`, can take the feedback
    /// from `self` to `after`, ending in `r`.
    spec fn spec_append_metadata(&self, observers: OT, testcase_id: TestcaseId, after: Self, r: Result<(), Error>) -> bool;

    /// Record what the feedback learnt from a run whose input became a testcase.
    fn append_metadata(&mut self, observers: &OT, testcase_id: &TestcaseId) -> (r: Result<(), Error>)
        ensures
            old(self).spec_append_metadata(*observers, *testcase_id, *final(self), r),
    ;
}

/// Makes a feedback out of a context, such as the observers of a given executor.
pub trait FeedbackFactory<F, T> {
    /// The feedback for `ctx`.
    fn create_feedback(&self, ctx: &T) -> F;
}

/// Logical combination of two feedbacks.
pub trait FeedbackLogic {
    /// The name of this combination.
    spec fn spec_logic_name() -> Seq<char>;

    /// The combined verdict.
    spec fn spec_combine(first: bool, second: bool) -> bool;

    /// Whether the second feedback runs, given the verdict of the first.
    spec fn spec_needs_second(first: bool) -> bool;

    /// The name of this combination.
    fn logic_name() -> (r: String)
        ensures
            r@ == Self::spec_logic_name(),
    ;

    /// Whether the second feedback runs, given the verdict of the first.
    fn needs_second(first: bool) -> (r: bool)
        ensures
            r == Self::spec_needs_second(first),
    ;

    /// The combined verdict.
    fn combine(first: bool, second: bool) -> (r: bool)
        ensures
            r == Self::spec_combine(first, second),
    ;

    /// When the second feedback is skipped, the first verdict decides alone.
    proof fn lemma_short_circuit(first: bool, second: bool)
        ensures
            !Self::spec_needs_second(first) ==> Self::spec_combine(first, second) == first,
    ;
}

/// Eager `OR` combination of two feedbacks: both always run.
#[derive(Debug, Clone)]
pub struct LogicEagerOr;

/// Fast `OR` combination of two feedbacks: the second runs only if the first is not interesting.
#[derive(Debug, Clone)]
pub struct LogicFastOr;

/// Eager `AND` combination of two feedbacks: both always run.
#[derive(Debug, Clone)]
pub struct LogicEagerAnd;

/// Fast `AND` combination of two feedbacks: the second runs only if the first is interesting.
#[derive(Debug, Clone)]
pub struct LogicFastAnd;

impl FeedbackLogic for LogicEagerOr {
    open spec fn spec_logic_name() -> Seq<char> {
        "Eager OR"@
    }

    open spec fn spec_combine(first: bool, second: bool) -> bool {
        first || second
    }

    open spec fn spec_needs_second(first: bool) -> bool {
        true
    }

    fn logic_name() -> (r: String) {
        "Eager OR".to_string()
    }

    fn needs_second(_first: bool) -> (r: bool) {
        true
    }

    fn combine(first: bool, second: bool) -> (r: bool) {
        first || second
    }

    proof fn lemma_short_circuit(first: bool, second: bool) {
    }
}

impl FeedbackLogic for LogicFastOr {
    open spec fn spec_logic_name() -> Seq<char> {
        "Fast OR"@
    }

    open spec fn spec_combine(first: bool, second: bool) -> bool {
        first || second
    }

    open spec fn spec_needs_second(first: bool) -> bool {
        !first
    }

    fn logic_name() -> (r: String) {
        "Fast OR".to_string()
    }

    fn needs_second(first: bool) -> (r: bool) {
        !first
    }

    fn combine(first: bool, second: bool) -> (r: bool) {
        first || second
    }

    proof fn lemma_short_circuit(first: bool, second: bool) {
    }
}

impl FeedbackLogic for LogicEagerAnd {
    open spec fn spec_logic_name() -> Seq<char> {
        "Eager AND"@
    }

    open spec fn spec_combine(first: bool, second: bool) -> bool {
        first && second
    }

    open spec fn spec_needs_second(first: bool) -> bool {
        true
    }

    fn logic_name() -> (r: String) {
        "Eager AND".to_string()
    }

    fn needs_second(_first: bool) -> (r: bool) {
        true
    }

    fn combine(first: bool, second: bool) -> (r: bool) {
        first && second
    }

    proof fn lemma_short_circuit(first: bool, second: bool) {
    }
}

impl FeedbackLogic for LogicFastAnd {
    open spec fn spec_logic_name() -> Seq<char> {
        "Fast AND"@
    }

    open spec fn spec_combine(first: bool, second: bool) -> bool {
        first && second
    }

    open spec fn spec_needs_second(first: bool) -> bool {
        first
    }

    fn logic_name() -> (r: String) {
        "Fast AND".to_string()
    }

    fn needs_second(first: bool) -> (r: bool) {
        first
    }

    fn combine(first: bool, second: bool) -> (r: bool) {
        first && second
    }

    proof fn lemma_short_circuit(first: bool, second: bool) {
    }
}

/// A fast combination gives the verdict of the eager one with the same
/// logical connective: not running the second feedback changes nothing.
pub proof fn lemma_fast_agrees_with_eager(first: bool, second: bool)
    ensures
        LogicFastOr::spec_combine(first, second) == LogicEagerOr::spec_combine(first, second),
        LogicFastAnd::spec_combine(first, second) == LogicEagerAnd::spec_combine(first, second),
{
}

/// A combined feedback consisting of two feedbacks.
#[derive(Debug)]
pub struct CombinedFeedback<A, B, FL> {
    /// First feedback
    pub first: A,
    /// Second feedback
    pub second: B,
    name: String,
    phantom: PhantomData<FL>,
}

impl<A, B, FL> CombinedFeedback<A, B, FL> {
    /// The first feedback.
    pub closed spec fn spec_first(&self) -> A {
        self.first
    }

    /// The second feedback.
    pub closed spec fn spec_second(&self) -> B {
        self.second
    }
}

impl<A: Named, B: Named, FL: FeedbackLogic> CombinedFeedback<A, B, FL> {
    /// Creates a new combined feedback, named `"<logic> (<first>,<second>)"`.
    pub fn new(first: A, second: B) -> (r: Self)
        ensures
            r.spec_first() == first,
            r.spec_second() == second,
            r.spec_name() == FL::spec_logic_name() + " ("@ + first.spec_name() + ","@
                + second.spec_name() + ")"@,
    {
        let mut name = FL::logic_name();
        name.append(" (");
        let a = first.name();
        name.append(a.as_str());
        name.append(",");
        let b = second.name();
        name.append(b.as_str());
        name.append(")");
        CombinedFeedback { first, second, name, phantom: PhantomData }
    }
}

impl<A, B, FL> Named for CombinedFeedback<A, B, FL> {
    closed spec fn spec_name(&self) -> Seq<char> {
        self.name@
    }

    fn name(&self) -> (r: String) {
        self.name.clone()
    }
}

impl<OT, A: Feedback<OT>, B: Feedback<OT>, FL: FeedbackLogic> Feedback<OT> for CombinedFeedback<
    A,
    B,
    FL,
> {
    open spec fn spec_evaluates(&self, observers: OT, exit_kind: ExitKind) -> bool {
        &&& self.spec_first().spec_evaluates(observers, exit_kind)
        &&& FL::spec_needs_second(self.spec_first().spec_is_interesting(observers, exit_kind))
            ==> self.spec_second().spec_evaluates(observers, exit_kind)
    }

    open spec fn spec_is_interesting(&self, observers: OT, exit_kind: ExitKind) -> bool {
        FL::spec_combine(
            self.spec_first().spec_is_interesting(observers, exit_kind),
            self.spec_second().spec_is_interesting(observers, exit_kind),
        )
    }

    /// The first feedback evaluates; the second evaluates when the first
    /// succeeded and its verdict does not decide alone, and is left as it
    /// was otherwise. The name stays.
    open spec fn spec_evaluation(&self, observers: OT, exit_kind: ExitKind, after: Self) -> bool {
        &&& after.spec_name() == self.spec_name()
        &&& self.spec_first().spec_evaluation(observers, exit_kind, after.spec_first())
        &&& if self.spec_first().spec_evaluates(observers, exit_kind) && FL::spec_needs_second(
            self.spec_first().spec_is_interesting(observers, exit_kind),
        ) {
            self.spec_second().spec_evaluation(observers, exit_kind, after.spec_second())
        } else {
            after.spec_second() == self.spec_second()
        }
    }

    fn is_interesting(&mut self, observers: &OT, exit_kind: &ExitKind) -> (r: Result<bool, Error>) {
        let a = self.first.is_interesting(observers, exit_kind)?;
        if FL::needs_second(a) {
            let b = self.second.is_interesting(observers, exit_kind)?;
            Ok(FL::combine(a, b))
        } else {
            proof {
                FL::lemma_short_circuit(a, old(self).second.spec_is_interesting(*observers, *exit_kind));
            }
            Ok(a)
        }
    }

    /// The first feedback records first: when it fails, its error is the
    /// result and the second is left as it was; otherwise the second records.
    /// The name stays.
    open spec fn spec_append_metadata(&self, observers: OT, testcase_id: TestcaseId, after: Self, r: Result<(), Error>) -> bool {
        &&& after.spec_name() == self.spec_name()
        &&& {
            ||| (r is Err && self.spec_first().spec_append_metadata(
                observers,
                testcase_id,
                after.spec_first(),
                r,
            ) && after.spec_second() == self.spec_second())
            ||| exists|first: Result<(), Error>|
                first is Ok && #[trigger] self.spec_first().spec_append_metadata(
                    observers,
                    testcase_id,
                    after.spec_first(),
                    first,
                ) && self.spec_second().spec_append_metadata(
                    observers,
                    testcase_id,
                    after.spec_second(),
                    r,
                )
        }
    }

    fn append_metadata(&mut self, observers: &OT, testcase_id: &TestcaseId) -> (r: Result<(), Error>) {
        let first = self.first.append_metadata(observers, testcase_id);
        match first {
            Ok(_) => {
                let r = self.second.append_metadata(observers, testcase_id);
                assert(old(self).spec_first().spec_append_metadata(
                    *observers,
                    *testcase_id,
                    self.spec_first(),
                    first,
                ));
                r
            },
            Err(e) => Err(e),
        }
    }
}

/// Combine two feedbacks with an eager AND operation.
pub type EagerAndFeedback<A, B> = CombinedFeedback<A, B, LogicEagerAnd>;

/// Combine two feedbacks with a fast AND operation.
pub type FastAndFeedback<A, B> = CombinedFeedback<A, B, LogicFastAnd>;

/// Combine two feedbacks with an eager OR operation.
pub type EagerOrFeedback<A, B> = CombinedFeedback<A, B, LogicEagerOr>;

/// Combine two feedbacks with a fast OR operation.
pub type FastOrFeedback<A, B> = CombinedFeedback<A, B, LogicFastOr>;

/// Inverts the verdict of a feedback.
#[derive(Debug, Clone)]
pub struct NotFeedback<A> {
    /// The feedback to invert
    pub inner: A,
    name: String,
}

impl<A> NotFeedback<A> {
    /// The inverted feedback.
    pub closed spec fn spec_inner(&self) -> A {
        self.inner
    }
}

impl<A: Named> NotFeedback<A> {
    /// Creates a new [`NotFeedback`], named `"Not(<inner>)"`.
    pub fn new(inner: A) -> (r: Self)
        ensures
            r.spec_inner() == inner,
            r.spec_name() == "Not("@ + inner.spec_name() + ")"@,
    {
        let mut name = "Not(".to_string();
        let n = inner.name();
        name.append(n.as_str());
        name.append(")");
        NotFeedback { inner, name }
    }
}

impl<A> Named for NotFeedback<A> {
    closed spec fn spec_name(&self) -> Seq<char> {
        self.name@
    }

    fn name(&self) -> (r: String) {
        self.name.clone()
    }
}

impl<OT, A: Feedback<OT>> Feedback<OT> for NotFeedback<A> {
    open spec fn spec_evaluates(&self, observers: OT, exit_kind: ExitKind) -> bool {
        self.spec_inner().spec_evaluates(observers, exit_kind)
    }

    open spec fn spec_is_interesting(&self, observers: OT, exit_kind: ExitKind) -> bool {
        !self.spec_inner().spec_is_interesting(observers, exit_kind)
    }

    /// The inner feedback evaluates; the name stays.
    open spec fn spec_evaluation(&self, observers: OT, exit_kind: ExitKind, after: Self) -> bool {
        &&& after.spec_name() == self.spec_name()
        &&& self.spec_inner().spec_evaluation(observers, exit_kind, after.spec_inner())
    }

    fn is_interesting(&mut self, observers: &OT, exit_kind: &ExitKind) -> (r: Result<bool, Error>) {
        let b = self.inner.is_interesting(observers, exit_kind)?;
        Ok(!b)
    }

    /// The inner feedback records; the name stays.
    open spec fn spec_append_metadata(&self, observers: OT, testcase_id: TestcaseId, after: Self, r: Result<(), Error>) -> bool {
        &&& after.spec_name() == self.spec_name()
        &&& self.spec_inner().spec_append_metadata(observers, testcase_id, after.spec_inner(), r)
    }

    fn append_metadata(&mut self, observers: &OT, testcase_id: &TestcaseId) -> (r: Result<(), Error>) {
        self.inner.append_metadata(observers, testcase_id)
    }
}

/// Logic deciding whether a given [`ExitKind`] is interesting.
pub trait ExitKindLogic {
    /// The name of this kind of logic.
    spec fn spec_logic_name() -> Seq<char>;

    /// Whether the exit kind is interesting.
    spec fn spec_check(kind: ExitKind) -> bool;

    /// The name of this kind of logic.
    fn logic_name() -> (r: String)
        ensures
            r@ == Self::spec_logic_name(),
    ;

    /// Check whether the provided [`ExitKind`] is interesting.
    fn check_exit_kind(kind: &ExitKind) -> (r: Result<bool, Error>)
        ensures
            r matches Ok(b) && b == Self::spec_check(*kind),
    ;
}

/// Logic which finds all [`ExitKind::Crash`] exits interesting.
#[derive(Debug, Copy, Clone)]
pub struct CrashLogic;

/// Logic which finds all [`ExitKind::Timeout`] exits interesting.
#[derive(Debug, Copy, Clone)]
pub struct TimeoutLogic;

impl ExitKindLogic for CrashLogic {
    open spec fn spec_logic_name() -> Seq<char> {
        "CrashFeedback"@
    }

    open spec fn spec_check(kind: ExitKind) -> bool {
        kind is Crash
    }

    fn logic_name() -> (r: String) {
        "CrashFeedback".to_string()
    }

    fn check_exit_kind(kind: &ExitKind) -> (r: Result<bool, Error>) {
        Ok(matches!(kind, ExitKind::Crash))
    }
}

impl ExitKindLogic for TimeoutLogic {
    open spec fn spec_logic_name() -> Seq<char> {
        "TimeoutFeedback"@
    }

    open spec fn spec_check(kind: ExitKind) -> bool {
        kind is Timeout
    }

    fn logic_name() -> (r: String) {
        "TimeoutFeedback".to_string()
    }

    fn check_exit_kind(kind: &ExitKind) -> (r: Result<bool, Error>) {
        Ok(matches!(kind, ExitKind::Timeout))
    }
}

/// A feedback checking the exit kind of a run with the logic `L`.
#[derive(Debug)]
pub struct ExitKindFeedback<L> {
    name: String,
    phantom: PhantomData<L>,
}

impl<L: ExitKindLogic> ExitKindFeedback<L> {
    /// Creates a new [`ExitKindFeedback`], named after its logic.
    pub fn new() -> (r: Self)
        ensures
            r.spec_name() == L::spec_logic_name(),
    {
        ExitKindFeedback { name: L::logic_name(), phantom: PhantomData }
    }
}

impl<L> Named for ExitKindFeedback<L> {
    closed spec fn spec_name(&self) -> Seq<char> {
        self.name@
    }

    fn name(&self) -> (r: String) {
        self.name.clone()
    }
}

impl<OT, L: ExitKindLogic> Feedback<OT> for ExitKindFeedback<L> {
    open spec fn spec_evaluates(&self, observers: OT, exit_kind: ExitKind) -> bool {
        true
    }

    open spec fn spec_is_interesting(&self, observers: OT, exit_kind: ExitKind) -> bool {
        L::spec_check(exit_kind)
    }

    /// Nothing changes.
    open spec fn spec_evaluation(&self, observers: OT, exit_kind: ExitKind, after: Self) -> bool {
        after == *self
    }

    fn is_interesting(&mut self, _observers: &OT, exit_kind: &ExitKind) -> (r: Result<bool, Error>) {
        L::check_exit_kind(exit_kind)
    }

    /// Nothing is recorded.
    open spec fn spec_append_metadata(&self, observers: OT, testcase_id: TestcaseId, after: Self, r: Result<(), Error>) -> bool {
        r is Ok && after == *self
    }

    fn append_metadata(&mut self, _observers: &OT, _testcase_id: &TestcaseId) -> (r: Result<(), Error>)
        ensures
            r is Ok,
    {
        Ok(())
    }
}

/// Reports as interesting the runs where the target crashed.
pub type CrashFeedback = ExitKindFeedback<CrashLogic>;

/// Reports as interesting the runs that timed out.
pub type TimeoutFeedback = ExitKindFeedback<TimeoutLogic>;

/// The feedback used for objectives by default: a crash or a timeout.
pub type StdObjectiveFeedback = FastOrFeedback<CrashFeedback, TimeoutFeedback>;

/// A feedback that always reports the same value.
#[derive(Debug, Copy, Clone, PartialEq, Eq, Structural)]
pub enum ConstFeedback {
    /// Always returns `true`
    True,
    /// Always returns `false`
    False,
}

impl ConstFeedback {
    /// Creates a new [`ConstFeedback`] from the given boolean.
    pub fn new(val: bool) -> (r: Self)
        ensures
            r.spec_value() == val,
    {
        if val {
            ConstFeedback::True
        } else {
            ConstFeedback::False
        }
    }

    /// The value this feedback reports.
    pub open spec fn spec_value(&self) -> bool {
        *self is True
    }

    /// The value this feedback reports.
    pub fn value(&self) -> (r: bool)
        ensures
            r == self.spec_value(),
    {
        match self {
            ConstFeedback::True => true,
            ConstFeedback::False => false,
        }
    }
}

impl From<bool> for ConstFeedback {
    fn from(val: bool) -> (r: Self)
        ensures
            r.spec_value() == val,
    {
        Self::new(val)
    }
}

impl vstd::std_specs::convert::FromSpecImpl<bool> for ConstFeedback {
    open spec fn obeys_from_spec() -> bool {
        true
    }

    open spec fn from_spec(val: bool) -> Self {
        if val {
            ConstFeedback::True
        } else {
            ConstFeedback::False
        }
    }
}

impl From<ConstFeedback> for bool {
    fn from(value: ConstFeedback) -> (r: Self)
        ensures
            r == value.spec_value(),
    {
        value.value()
    }
}

impl vstd::std_specs::convert::FromSpecImpl<ConstFeedback> for bool {
    open spec fn obeys_from_spec() -> bool {
        true
    }

    open spec fn from_spec(value: ConstFeedback) -> Self {
        value.spec_value()
    }
}

impl Named for ConstFeedback {
    open spec fn spec_name(&self) -> Seq<char> {
        "ConstFeedback"@
    }

    fn name(&self) -> (r: String) {
        "ConstFeedback".to_string()
    }
}

impl<OT> Feedback<OT> for ConstFeedback {
    open spec fn spec_evaluates(&self, observers: OT, exit_kind: ExitKind) -> bool {
        true
    }

    open spec fn spec_is_interesting(&self, observers: OT, exit_kind: ExitKind) -> bool {
        self.spec_value()
    }

    /// Nothing changes.
    open spec fn spec_evaluation(&self, observers: OT, exit_kind: ExitKind, after: Self) -> bool {
        after == *self
    }

    fn is_interesting(&mut self, _observers: &OT, _exit_kind: &ExitKind) -> (r: Result<bool, Error>) {
        Ok(self.value())
    }

    /// Nothing is recorded.
    open spec fn spec_append_metadata(&self, observers: OT, testcase_id: TestcaseId, after: Self, r: Result<(), Error>) -> bool {
        r is Ok && after == *self
    }

    fn append_metadata(&mut self, _observers: &OT, _testcase_id: &TestcaseId) -> (r: Result<(), Error>)
        ensures
            r is Ok,
    {
        Ok(())
    }
}

} // verus!
