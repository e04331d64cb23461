//! State values, the pending-transition slot, and the transition engine.
use vstd::prelude::*;

use crate::matching::{MatchesStateTransition, StateMatcher};

verus! {

/// Types that can serve as world-wide states of a finite-state machine.
///
/// An implementation must copy and compare by the value: `duplicate` returns
/// an equal state, `same_state` answers equality.
///
/// Several state types can coexist, each classifying the world along its own
/// dimension. A state may be a flat tag or carry nested data.
pub trait MatchableState: Sized {
    /// An equal copy of this state.
    fn duplicate(&self) -> (r: Self)
        ensures
            r == *self,
    ;

    /// Equality of states.
    fn same_state(&self, other: &Self) -> (r: bool)
        ensures
            r == (*self == *other),
    ;

    /// Tests this state against `matcher`, with no secondary state.
    fn matches<M: StateMatcher<Self>>(&self, matcher: &M) -> (r: bool)
        requires
            matcher.ready(),
        ensures
            matcher.state_result(self, r),
    {
        matcher.match_state(self)
    }

    /// Tests the pair `(main, secondary)` against `matcher`.
    fn matches_transition<M: StateMatcher<Self>>(
        matcher: &M,
        main: Option<&Self>,
        secondary: Option<&Self>,
    ) -> (r: MatchesStateTransition)
        requires
            matcher.ready(),
        ensures
            matcher.transition_result(main, secondary, r),
    {
        matcher.match_state_transition(main, secondary)
    }
}

impl MatchableState for u32 {
    fn duplicate(&self) -> (r: Self) {
        *self
    }

    fn same_state(&self, other: &Self) -> (r: bool) {
        *self == *other
    }
}

impl MatchableState for bool {
    fn duplicate(&self) -> (r: Self) {
        *self
    }

    fn same_state(&self, other: &Self) -> (r: bool) {
        *self == *other
    }
}

/// The pair of states that a transition, or the initial entry, is passing
/// through. It exists only while lifecycle phases run.
///
/// Before the exit phases `main` is the state being left and `secondary` the
/// one being entered; from the commit on they are swapped. On initial entry
/// `main` is the starting state and `secondary` is absent.
pub struct ActiveTransition<S> {
    main: Option<S>,
    secondary: Option<S>,
}

impl<S: MatchableState> ActiveTransition<S> {
    pub closed spec fn spec_main(&self) -> Option<S> {
        self.main
    }

    pub closed spec fn spec_secondary(&self) -> Option<S> {
        self.secondary
    }

    pub(crate) fn new(main: Option<S>, secondary: Option<S>) -> (r: Self)
        ensures
            r.spec_main() == main,
            r.spec_secondary() == secondary,
    {
        ActiveTransition { main, secondary }
    }

    /// Exchanges the main and the secondary state.
    pub(crate) fn swap(&mut self)
        ensures
            final(self).spec_main() == old(self).spec_secondary(),
            final(self).spec_secondary() == old(self).spec_main(),
    {
        std::mem::swap(&mut self.main, &mut self.secondary);
    }

    pub(crate) fn duplicate(&self) -> (r: Self)
        ensures
            r.spec_main() == self.spec_main(),
            r.spec_secondary() == self.spec_secondary(),
    {
        ActiveTransition { main: copy_option(&self.main), secondary: copy_option(&self.secondary) }
    }

    /// The primary state of the transition.
    pub fn get_main(&self) -> (r: Option<&S>)
        ensures
            r == option_ref(&self.spec_main()),
    {
        self.main.as_ref()
    }

    /// The secondary state of the transition.
    pub fn get_secondary(&self) -> (r: Option<&S>)
        ensures
            r == option_ref(&self.spec_secondary()),
    {
        self.secondary.as_ref()
    }
}

fn copy_option<S: MatchableState>(o: &Option<S>) -> (r: Option<S>)
    ensures
        r == *o,
{
    match o {
        Some(s) => Some(s.duplicate()),
        None => None,
    }
}

/// A requested change of a state.
#[verifier::reject_recursive_types(S)]
pub enum PendingTransition<S, F> {
    /// Do not change the state.
    Keep,
    /// Change the state to a given value.
    Value(S),
    /// Change the state to the closure's image of the current state.
    Setter(F),
}

impl<S, F: Fn(S) -> S> PendingTransition<S, F> {
    /// A setter can be applied to any state.
    pub open spec fn ready(&self) -> bool {
        self matches PendingTransition::Setter(f) ==> forall|s: S| call_requires(f, (s,))
    }

    /// `cand` is a possible next state of `current` under this request.
    pub open spec fn candidate(&self, current: S, cand: S) -> bool {
        match self {
            PendingTransition::Keep => false,
            PendingTransition::Value(v) => cand == v,
            PendingTransition::Setter(f) => call_ensures(f, (current,), cand),
        }
    }
}

/// The slot holding the next value of a state, as requested by consumers.
///
/// Only the request standing when the engine runs counts: a new request
/// replaces the previous one.
#[verifier::reject_recursive_types(S)]
pub struct NextMatchableState<S, F: Fn(S) -> S> {
    request: PendingTransition<S, F>,
}

impl<S, F: Fn(S) -> S> NextMatchableState<S, F> {
    #[verifier::type_invariant]
    closed spec fn inv(&self) -> bool {
        self.request.ready()
    }

    /// The request standing in the slot.
    pub closed spec fn spec_request(&self) -> PendingTransition<S, F> {
        self.request
    }

    /// A slot with no request.
    pub fn new() -> (r: Self)
        ensures
            r.spec_request() is Keep,
    {
        NextMatchableState { request: PendingTransition::Keep }
    }

    /// The request standing in the slot.
    pub fn request(&self) -> (r: &PendingTransition<S, F>)
        ensures
            *r == self.spec_request(),
            r.ready(),
    {
        proof {
            use_type_invariant(self);
        }
        &self.request
    }

    /// Requests a transition to `state`.
    pub fn set(&mut self, state: S)
        ensures
            final(self).spec_request() == PendingTransition::<S, F>::Value(state),
    {
        self.request = PendingTransition::Value(state);
    }

    /// Requests a transition to the image of the current state under `setter`.
    pub fn setter(&mut self, setter: F)
        requires
            forall|s: S| call_requires(setter, (s,)),
        ensures
            final(self).spec_request() == PendingTransition::<S, F>::Setter(setter),
    {
        self.request = PendingTransition::Setter(setter);
    }

    /// Withdraws any requested transition.
    pub fn keep(&mut self)
        ensures
            final(self).spec_request() is Keep,
    {
        self.request = PendingTransition::Keep;
    }

    /// Takes the standing request out, leaving no request behind.
    pub(crate) fn take(&mut self) -> (r: PendingTransition<S, F>)
        ensures
            r == old(self).spec_request(),
            r.ready(),
            final(self).spec_request() is Keep,
    {
        proof {
            use_type_invariant(&*self);
        }
        let mut r = PendingTransition::Keep;
        std::mem::swap(&mut r, &mut self.request);
        r
    }
}

/// A lifecycle phase of a state type.
pub enum Phase<S> {
    /// The given state is being entered.
    OnEnter(S),
    /// The given state is being left.
    OnExit(S),
    /// The state is changing from the first value to the second.
    OnTransition(S, S),
    /// Some state is being entered, whatever its value.
    Entering,
    /// Some state is being left, whatever its value.
    Exiting,
}

impl<S: MatchableState> Phase<S> {
    fn duplicate(&self) -> (r: Self)
        ensures
            r == *self,
    {
        match self {
            Phase::OnEnter(s) => Phase::OnEnter(s.duplicate()),
            Phase::OnExit(s) => Phase::OnExit(s.duplicate()),
            Phase::OnTransition(a, b) => Phase::OnTransition(a.duplicate(), b.duplicate()),
            Phase::Entering => Phase::Entering,
            Phase::Exiting => Phase::Exiting,
        }
    }
}

/// One run of a lifecycle phase, with what its callbacks observe: the
/// committed state and the active transition.
pub struct PhaseRun<S> {
    phase: Phase<S>,
    committed: S,
    active: ActiveTransition<S>,
}

impl<S: MatchableState> PhaseRun<S> {
    pub closed spec fn spec_phase(&self) -> Phase<S> {
        self.phase
    }

    pub closed spec fn spec_committed(&self) -> S {
        self.committed
    }

    pub closed spec fn spec_active(&self) -> ActiveTransition<S> {
        self.active
    }

    /// The phase that runs.
    pub fn phase(&self) -> (r: &Phase<S>)
        ensures
            *r == self.spec_phase(),
    {
        &self.phase
    }

    /// The committed state while the phase runs.
    pub fn committed(&self) -> (r: &S)
        ensures
            *r == self.spec_committed(),
    {
        &self.committed
    }

    /// The transition in progress while the phase runs.
    pub fn active(&self) -> (r: &ActiveTransition<S>)
        ensures
            *r == self.spec_active(),
    {
        &self.active
    }
}

/// This run is `phase`, observing `committed` and the pair `(main, secondary)`.
pub open spec fn is_run<S: MatchableState>(
    run: PhaseRun<S>,
    phase: Phase<S>,
    committed: S,
    main: Option<S>,
    secondary: Option<S>,
) -> bool {
    &&& run.spec_phase() == phase
    &&& run.spec_committed() == committed
    &&& run.spec_active().spec_main() == main
    &&& run.spec_active().spec_secondary() == secondary
}

/// The runs of entering `s` with no prior state: on-enter, then entering.
pub open spec fn enter_log<S: MatchableState>(runs: Seq<PhaseRun<S>>, s: S) -> bool {
    &&& runs.len() == 2
    &&& is_run(runs[0], Phase::OnEnter(s), s, Some(s), None)
    &&& is_run(runs[1], Phase::Entering, s, Some(s), None)
}

/// The runs of a transition from `a` to `b`: on-exit and exiting see `a`
/// committed and `(a, b)` active; on-transition, on-enter and entering see
/// `b` committed and `(b, a)` active.
pub open spec fn transition_log<S: MatchableState>(runs: Seq<PhaseRun<S>>, a: S, b: S) -> bool {
    &&& runs.len() == 5
    &&& is_run(runs[0], Phase::OnExit(a), a, Some(a), Some(b))
    &&& is_run(runs[1], Phase::Exiting, a, Some(a), Some(b))
    &&& is_run(runs[2], Phase::OnTransition(a, b), b, Some(b), Some(a))
    &&& is_run(runs[3], Phase::OnEnter(b), b, Some(b), Some(a))
    &&& is_run(runs[4], Phase::Entering, b, Some(b), Some(a))
}

/// The callbacks registered for the lifecycle phases of one state type.
///
/// A callback may request the next transition through the slot it is
/// handed; the request is served by the next run of the engine.
pub trait StatePhases<S, F: Fn(S) -> S> {
    /// Runs the callbacks of `run`'s phase; a phase without callbacks does nothing.
    fn run_phase(&mut self, run: &PhaseRun<S>, next: &mut NextMatchableState<S, F>);
}

/// The committed value of one state type, its pending-transition slot, and
/// whether its initial entry has run.
#[verifier::reject_recursive_types(S)]
pub struct StateStore<S, F: Fn(S) -> S> {
    committed: S,
    next: NextMatchableState<S, F>,
    entered: bool,
}

impl<S: MatchableState, F: Fn(S) -> S> StateStore<S, F> {
    pub closed spec fn spec_committed(&self) -> S {
        self.committed
    }

    pub closed spec fn spec_next(&self) -> PendingTransition<S, F> {
        self.next.spec_request()
    }

    pub closed spec fn spec_entered(&self) -> bool {
        self.entered
    }

    /// Registers a state type with its starting state (normally the type's
    /// default): that state is committed, no transition is pending, and the
    /// initial entry has yet to run.
    pub fn register(initial: S) -> (r: Self)
        ensures
            r.spec_committed() == initial,
            r.spec_next() is Keep,
            !r.spec_entered(),
    {
        StateStore { committed: initial, next: NextMatchableState::new(), entered: false }
    }

    /// The committed state.
    pub fn get(&self) -> (r: &S)
        ensures
            *r == self.spec_committed(),
    {
        &self.committed
    }

    /// Whether the initial entry has run.
    pub fn has_entered(&self) -> (r: bool)
        ensures
            r == self.spec_entered(),
    {
        self.entered
    }

    /// The pending-transition slot, open to requests.
    pub fn next_mut(&mut self) -> (r: &mut NextMatchableState<S, F>)
        ensures
            r.spec_request() == old(self).spec_next(),
            final(self).spec_committed() == old(self).spec_committed(),
            final(self).spec_entered() == old(self).spec_entered(),
            final(self).spec_next() == final(r).spec_request(),
    {
        &mut self.next
    }

    /// The request standing in the pending-transition slot.
    pub fn next(&self) -> (r: &PendingTransition<S, F>)
        ensures
            *r == self.spec_next(),
    {
        self.next.request()
    }
}

/// Records and runs one phase.
fn run_one<S: MatchableState, F: Fn(S) -> S, P: StatePhases<S, F>>(
    phases: &mut P,
    runs: &mut Vec<PhaseRun<S>>,
    phase: &Phase<S>,
    committed: &S,
    active: &ActiveTransition<S>,
    next: &mut NextMatchableState<S, F>,
)
    ensures
        final(runs)@.len() == old(runs)@.len() + 1,
        final(runs)@.drop_last() == old(runs)@,
        is_run(
            final(runs)@.last(),
            *phase,
            *committed,
            active.spec_main(),
            active.spec_secondary(),
        ),
{
    let run = PhaseRun { phase: phase.duplicate(), committed: committed.duplicate(), active: active.duplicate() };
    phases.run_phase(&run, next);
    runs.push(run);
    proof {
        assert(final(runs)@.drop_last() =~= old(runs)@);
    }
}

/// What one run of `apply_state_transition` does, taking `pre` to `post`
/// with the phase runs `runs`.
///
/// With no request nothing changes. Otherwise the request yields a
/// candidate; a candidate equal to the committed state is absorbed and only
/// clears the request; any other is committed, through the five phases of a
/// transition. Requests made by those phases stand for the next run.
pub open spec fn applied<S: MatchableState, F: Fn(S) -> S>(
    pre: StateStore<S, F>,
    post: StateStore<S, F>,
    runs: Seq<PhaseRun<S>>,
) -> bool {
    &&& post.spec_entered() == pre.spec_entered()
    &&& if pre.spec_next() is Keep {
        &&& post == pre
        &&& runs.len() == 0
    } else {
        &&& pre.spec_next().candidate(pre.spec_committed(), post.spec_committed())
        &&& if post.spec_committed() == pre.spec_committed() {
            &&& runs.len() == 0
            &&& post.spec_next() is Keep
        } else {
            transition_log(runs, pre.spec_committed(), post.spec_committed())
        }
    }
}

/// Applies the pending transition of a state type, if any, and returns the
/// phases it ran, in order.
pub fn apply_state_transition<S: MatchableState, F: Fn(S) -> S, P: StatePhases<S, F>>(
    store: &mut StateStore<S, F>,
    phases: &mut P,
) -> (runs: Vec<PhaseRun<S>>)
    ensures
        applied(*old(store), *final(store), runs@),
{
    let mut runs: Vec<PhaseRun<S>> = Vec::new();
    let request = store.next.take();
    let entered = match request {
        PendingTransition::Keep => {
            proof {
                assert(*store == *old(store));
            }
            return runs;
        },
        PendingTransition::Value(v) => v,
        PendingTransition::Setter(f) => f(store.committed.duplicate()),
    };
    if store.committed.same_state(&entered) {
        return runs;
    }
    let current = store.committed.duplicate();
    let mut active = ActiveTransition::new(Some(current.duplicate()), Some(entered.duplicate()));
    run_one(phases, &mut runs, &Phase::OnExit(current.duplicate()), &store.committed, &active, &mut store.next);
    run_one(phases, &mut runs, &Phase::Exiting, &store.committed, &active, &mut store.next);
    active.swap();
    store.committed = entered.duplicate();
    run_one(
        phases,
        &mut runs,
        &Phase::OnTransition(current, entered.duplicate()),
        &store.committed,
        &active,
        &mut store.next,
    );
    run_one(phases, &mut runs, &Phase::OnEnter(entered), &store.committed, &active, &mut store.next);
    run_one(phases, &mut runs, &Phase::Entering, &store.committed, &active, &mut store.next);
    runs
}

/// Runs the entry phases of the committed state, as on startup, and returns
/// them in order. The committed state does not change.
pub fn run_enter_schedule<S: MatchableState, F: Fn(S) -> S, P: StatePhases<S, F>>(
    store: &mut StateStore<S, F>,
    phases: &mut P,
) -> (runs: Vec<PhaseRun<S>>)
    ensures
        final(store).spec_committed() == old(store).spec_committed(),
        final(store).spec_entered() == old(store).spec_entered(),
        enter_log(runs@, old(store).spec_committed()),
{
    let mut runs: Vec<PhaseRun<S>> = Vec::new();
    let state = store.committed.duplicate();
    let active = ActiveTransition::new(Some(state.duplicate()), None);
    run_one(phases, &mut runs, &Phase::OnEnter(state), &store.committed, &active, &mut store.next);
    run_one(phases, &mut runs, &Phase::Entering, &store.committed, &active, &mut store.next);
    runs
}

/// What one frame of `run_state_transition` does: on the first frame the
/// entry phases of the committed state run, then the pending transition is
/// applied; on later frames only the latter.
pub open spec fn framed<S: MatchableState, F: Fn(S) -> S>(
    pre: StateStore<S, F>,
    post: StateStore<S, F>,
    runs: Seq<PhaseRun<S>>,
) -> bool {
    if pre.spec_entered() {
        applied(pre, post, runs)
    } else {
        &&& runs.len() >= 2
        &&& enter_log(runs.take(2), pre.spec_committed())
        &&& exists|mid: StateStore<S, F>|
            {
                &&& mid.spec_entered()
                &&& mid.spec_committed() == pre.spec_committed()
                &&& #[trigger] applied(mid, post, runs.skip(2))
            }
    }
}

/// The state-transition step of one frame for a state type: its entry
/// phases on the first frame only, then its pending transition. Returns the
/// phases run, in order.
pub fn run_state_transition<S: MatchableState, F: Fn(S) -> S, P: StatePhases<S, F>>(
    store: &mut StateStore<S, F>,
    phases: &mut P,
) -> (runs: Vec<PhaseRun<S>>)
    ensures
        framed(*old(store), *final(store), runs@),
        final(store).spec_entered(),
{
    if store.entered {
        return apply_state_transition(store, phases);
    }
    let mut runs = run_enter_schedule(store, phases);
    let ghost enter_view = runs@;
    store.entered = true;
    let ghost mid = *store;
    let mut rest = apply_state_transition(store, phases);
    let ghost rest_view = rest@;
    runs.append(&mut rest);
    proof {
        assert(runs@.take(2) =~= enter_view);
        assert(runs@.skip(2) =~= rest_view);
    }
    runs
}

/// Whether work gated by `matcher` runs: against the active transition when
/// one is in progress (any outcome but `NoMatch` counts), else against the
/// committed state.
pub fn run_in<S: MatchableState, M: StateMatcher<S>>(
    matcher: &M,
    committed: &S,
    active: Option<&ActiveTransition<S>>,
) -> (r: bool)
    requires
        matcher.ready(),
    ensures
        match active {
            None => matcher.state_result(committed, r),
            Some(t) => exists|m: MatchesStateTransition|
                {
                    &&& #[trigger] matcher.transition_result(
                        option_ref(&t.spec_main()),
                        option_ref(&t.spec_secondary()),
                        m,
                    )
                    &&& r == m.spec_is_match()
                },
        },
{
    match active {
        None => committed.matches(matcher),
        Some(t) => {
            let m = S::matches_transition(matcher, t.get_main(), t.get_secondary());
            m.is_match()
        },
    }
}

/// A reference to the value held, if any.
pub open spec fn option_ref<'a, S>(o: &'a Option<S>) -> Option<&'a S> {
    match o {
        Some(s) => Some(s),
        None => None::<&S>,
    }
}

} // verus!
