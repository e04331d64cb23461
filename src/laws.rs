//! Properties of the transition engine and of matchers, proved over the
//! contracts of the functions they speak of.
use vstd::prelude::*;

use crate::matching::{Equals, MatchesStateTransition, StateMatcher};
use crate::state::{
    applied, enter_log, framed, transition_log, MatchableState, PendingTransition, Phase,
    PhaseRun, StateStore,
};

verus! {

/// Requesting the state that is already committed runs no phase, leaves the
/// committed state as it was, and clears the request.
pub proof fn lemma_no_op_set<S: MatchableState, F: Fn(S) -> S>(
    pre: StateStore<S, F>,
    post: StateStore<S, F>,
    runs: Seq<PhaseRun<S>>,
)
    requires
        pre.spec_next() == PendingTransition::<S, F>::Value(pre.spec_committed()),
        applied(pre, post, runs),
    ensures
        runs.len() == 0,
        post.spec_committed() == pre.spec_committed(),
        post.spec_next() is Keep,
{
}

/// On a state type freshly registered with starting state `d`, the first
/// frame starts with the entry phases of `d`, once; any further phases of that
/// frame are those of a transition that an entry callback requested. A
/// following frame with no request runs no phase and changes nothing.
pub proof fn lemma_enter_once<S: MatchableState, F: Fn(S) -> S>(
    d: S,
    s0: StateStore<S, F>,
    s1: StateStore<S, F>,
    r1: Seq<PhaseRun<S>>,
    s2: StateStore<S, F>,
    r2: Seq<PhaseRun<S>>,
)
    requires
        s0.spec_committed() == d,
        s0.spec_next() is Keep,
        !s0.spec_entered(),
        framed(s0, s1, r1),
        s1.spec_next() is Keep,
        framed(s1, s2, r2),
    ensures
        enter_log(r1.take(2), d),
        r1.len() == 2 || transition_log(r1.skip(2), d, s1.spec_committed()),
        s1.spec_entered(),
        r2.len() == 0,
        s2 == s1,
{
}

/// A transition from `a` to `b != a` runs, in this order: on-exit of `a`,
/// exiting, on-transition from `a` to `b`, on-enter of `b`, entering. The
/// committed state is `a` during the first two and `b` from on-transition on.
pub proof fn lemma_phase_order<S: MatchableState, F: Fn(S) -> S>(
    pre: StateStore<S, F>,
    post: StateStore<S, F>,
    runs: Seq<PhaseRun<S>>,
    b: S,
)
    requires
        pre.spec_next() == PendingTransition::<S, F>::Value(b),
        b != pre.spec_committed(),
        applied(pre, post, runs),
    ensures
        post.spec_committed() == b,
        runs.len() == 5,
        runs[0].spec_phase() == Phase::OnExit(pre.spec_committed()),
        runs[1].spec_phase() == Phase::<S>::Exiting,
        runs[2].spec_phase() == Phase::OnTransition(pre.spec_committed(), b),
        runs[3].spec_phase() == Phase::OnEnter(b),
        runs[4].spec_phase() == Phase::<S>::Entering,
        runs[0].spec_committed() == pre.spec_committed(),
        runs[1].spec_committed() == pre.spec_committed(),
        forall|i: int| 2 <= i < 5 ==> (#[trigger] runs[i]).spec_committed() == b,
{
}

/// During a transition from `a` to `b`, the exit phases see `a` as main and
/// `b` as secondary; the enter phases see `b` as main and `a` as secondary.
pub proof fn lemma_active_orientation<S: MatchableState, F: Fn(S) -> S>(
    pre: StateStore<S, F>,
    post: StateStore<S, F>,
    runs: Seq<PhaseRun<S>>,
)
    requires
        !(pre.spec_next() is Keep),
        post.spec_committed() != pre.spec_committed(),
        applied(pre, post, runs),
    ensures
        forall|i: int|
            0 <= i < 2 ==> {
                &&& (#[trigger] runs[i]).spec_active().spec_main() == Some(pre.spec_committed())
                &&& runs[i].spec_active().spec_secondary() == Some(post.spec_committed())
            },
        forall|i: int|
            3 <= i < 5 ==> {
                &&& (#[trigger] runs[i]).spec_active().spec_main() == Some(post.spec_committed())
                &&& runs[i].spec_active().spec_secondary() == Some(pre.spec_committed())
            },
{
}

/// An equality matcher on `x` judges the pair `(x, x)` a main match, the pair
/// `(x, y)` a transition match, and the pair `(y, x)` no match, for `y != x`.
pub proof fn lemma_equals_transition<S: MatchableState>(x: S, y: S)
    requires
        x != y,
    ensures
        Equals(x).transition_result(Some(&x), Some(&x), MatchesStateTransition::MainMatches),
        Equals(x).transition_result(Some(&x), Some(&y), MatchesStateTransition::TransitionMatches),
        Equals(x).transition_result(Some(&y), Some(&x), MatchesStateTransition::NoMatch),
{
}

/// Over consecutive runs of the engine where no request is made after the
/// first run, only the first run can change the store: every later run
/// runs no phase and leaves the store as it was.
pub proof fn lemma_single_commit<S: MatchableState, F: Fn(S) -> S>(
    stores: Seq<StateStore<S, F>>,
    logs: Seq<Seq<PhaseRun<S>>>,
)
    requires
        stores.len() == logs.len() + 1,
        forall|i: int| 0 <= i < logs.len() ==> applied(stores[i], stores[i + 1], #[trigger] logs[i]),
        logs.len() >= 1 ==> stores[1].spec_next() is Keep,
    ensures
        forall|i: int| 1 <= i < stores.len() ==> #[trigger] stores[i] == stores[1],
        forall|i: int| 1 <= i < logs.len() ==> (#[trigger] logs[i]).len() == 0,
    decreases stores.len(),
{
    if logs.len() >= 2 {
        let n = logs.len() - 1;
        let s0 = stores.take(stores.len() - 1);
        let l0 = logs.take(n);
        assert forall|i: int| 0 <= i < l0.len() implies applied(s0[i], s0[i + 1], #[trigger] l0[i]) by {
            assert(applied(stores[i], stores[i + 1], logs[i]));
        }
        lemma_single_commit(s0, l0);
        assert(s0[n] == stores[1]);
        assert(applied(stores[n], stores[n + 1], logs[n]));
        assert forall|i: int| 1 <= i < stores.len() implies #[trigger] stores[i] == stores[1] by {
            if i < stores.len() - 1 {
                assert(s0[i] == stores[i]);
            }
        }
        assert forall|i: int| 1 <= i < logs.len() implies (#[trigger] logs[i]).len() == 0 by {
            if i < n {
                assert(l0[i] == logs[i]);
            }
        }
    }
}

} // verus!
