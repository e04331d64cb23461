//! Matchers: predicates over one state value or over a pair of them.
use vstd::prelude::*;

verus! {

/// The outcome of matching a pair of states.
#[derive(Clone, Copy, Debug, PartialEq, Eq, Structural)]
pub enum MatchesStateTransition {
    /// The matcher rejects the main state.
    NoMatch,
    /// The main state matches, but so does the secondary one: no change of interest.
    MainMatches,
    /// The main state matches and the secondary one does not: a genuine transition.
    TransitionMatches,
}

impl MatchesStateTransition {
    /// Whether this outcome counts as a match when read as a boolean gate.
    pub open spec fn spec_is_match(self) -> bool {
        !(self is NoMatch)
    }

    /// `NoMatch` reads as `false`, the two other outcomes as `true`.
    pub fn is_match(&self) -> (r: bool)
        ensures
            r == self.spec_is_match(),
    {
        match self {
            MatchesStateTransition::NoMatch => false,
            _ => true,
        }
    }

    /// A boolean answer of a pair-aware predicate: `true` is a transition match.
    pub open spec fn spec_from_bool(b: bool) -> Self {
        if b {
            MatchesStateTransition::TransitionMatches
        } else {
            MatchesStateTransition::NoMatch
        }
    }

    pub fn from_bool(b: bool) -> (r: Self)
        ensures
            r == Self::spec_from_bool(b),
    {
        if b {
            MatchesStateTransition::TransitionMatches
        } else {
            MatchesStateTransition::NoMatch
        }
    }

    /// How a single-state matcher judges a pair: given whether the main state
    /// matches, and whether the secondary one does.
    pub open spec fn spec_single(main_hit: bool, secondary_hit: bool) -> Self {
        if !main_hit {
            MatchesStateTransition::NoMatch
        } else if secondary_hit {
            MatchesStateTransition::MainMatches
        } else {
            MatchesStateTransition::TransitionMatches
        }
    }
}

/// A predicate over states of type `S`.
///
/// `match_state` tests one state; `match_state_transition` tests a pair
/// (main, secondary), as seen while a transition is in progress.
pub trait StateMatcher<S>: Sized {
    /// The matcher can be evaluated on any input.
    spec fn ready(&self) -> bool;

    /// `r` is a possible answer of `match_state` on `s`.
    spec fn state_result(&self, s: &S, r: bool) -> bool;

    /// `r` is a possible answer of `match_state_transition` on the pair.
    spec fn transition_result(&self, main: Option<&S>, secondary: Option<&S>, r: MatchesStateTransition) -> bool;

    /// Tests one state, with no secondary state.
    fn match_state(&self, state: &S) -> (r: bool)
        requires
            self.ready(),
        ensures
            self.state_result(state, r),
    ;

    /// Tests the pair `(main, secondary)`.
    fn match_state_transition(&self, main: Option<&S>, secondary: Option<&S>) -> (r: MatchesStateTransition)
        requires
            self.ready(),
        ensures
            self.transition_result(main, secondary, r),
    ;
}

/// Matches a state equal to the value it holds.
pub struct Equals<S>(pub S);

impl<S: crate::state::MatchableState> StateMatcher<S> for Equals<S> {
    open spec fn ready(&self) -> bool {
        true
    }

    open spec fn state_result(&self, s: &S, r: bool) -> bool {
        r == (*s == self.0)
    }

    open spec fn transition_result(&self, main: Option<&S>, secondary: Option<&S>, r: MatchesStateTransition) -> bool {
        r == MatchesStateTransition::spec_single(
            main == Some(&self.0),
            secondary == Some(&self.0),
        )
    }

    fn match_state(&self, state: &S) -> (r: bool) {
        state.same_state(&self.0)
    }

    fn match_state_transition(&self, main: Option<&S>, secondary: Option<&S>) -> (r: MatchesStateTransition) {
        let main_hit = match main {
            Some(m) => m.same_state(&self.0),
            None => false,
        };
        let secondary_hit = match secondary {
            Some(s) => s.same_state(&self.0),
            None => false,
        };
        if !main_hit {
            MatchesStateTransition::NoMatch
        } else if secondary_hit {
            MatchesStateTransition::MainMatches
        } else {
            MatchesStateTransition::TransitionMatches
        }
    }
}

/// Matches through a predicate on one present state.
///
/// An absent state, main or secondary, never matches; the predicate is only
/// ever handed a state.
pub struct ByRef<F>(pub F);

impl<S, F: Fn(&S) -> bool> StateMatcher<S> for ByRef<F> {
    open spec fn ready(&self) -> bool {
        forall|x: &S| call_requires(self.0, (x,))
    }

    open spec fn state_result(&self, s: &S, r: bool) -> bool {
        call_ensures(self.0, (s,), r)
    }

    open spec fn transition_result(&self, main: Option<&S>, secondary: Option<&S>, r: MatchesStateTransition) -> bool {
        match main {
            None => r is NoMatch,
            Some(m) => {
                ||| r is NoMatch && call_ensures(self.0, (m,), false)
                ||| call_ensures(self.0, (m,), true) && match secondary {
                    None => r is TransitionMatches,
                    Some(x) => {
                        ||| r is MainMatches && call_ensures(self.0, (x,), true)
                        ||| r is TransitionMatches && call_ensures(self.0, (x,), false)
                    },
                }
            },
        }
    }

    fn match_state(&self, state: &S) -> (r: bool) {
        (self.0)(state)
    }

    fn match_state_transition(&self, main: Option<&S>, secondary: Option<&S>) -> (r: MatchesStateTransition) {
        match main {
            None => MatchesStateTransition::NoMatch,
            Some(m) => {
                if !(self.0)(m) {
                    MatchesStateTransition::NoMatch
                } else {
                    match secondary {
                        None => MatchesStateTransition::TransitionMatches,
                        Some(x) => {
                            if (self.0)(x) {
                                MatchesStateTransition::MainMatches
                            } else {
                                MatchesStateTransition::TransitionMatches
                            }
                        },
                    }
                }
            },
        }
    }
}

/// Matches through a predicate on one optional state.
///
/// The predicate sees `None` only for an absent secondary state; an absent
/// main state never matches.
pub struct ByState<F>(pub F);

impl<S, F: Fn(Option<&S>) -> bool> StateMatcher<S> for ByState<F> {
    open spec fn ready(&self) -> bool {
        forall|x: Option<&S>| call_requires(self.0, (x,))
    }

    open spec fn state_result(&self, s: &S, r: bool) -> bool {
        call_ensures(self.0, (Some(s),), r)
    }

    open spec fn transition_result(&self, main: Option<&S>, secondary: Option<&S>, r: MatchesStateTransition) -> bool {
        match main {
            None => r is NoMatch,
            Some(m) => {
                ||| r is NoMatch && call_ensures(self.0, (Some(m),), false)
                ||| call_ensures(self.0, (Some(m),), true) && {
                    ||| r is MainMatches && call_ensures(self.0, (secondary,), true)
                    ||| r is TransitionMatches && call_ensures(self.0, (secondary,), false)
                }
            },
        }
    }

    fn match_state(&self, state: &S) -> (r: bool) {
        (self.0)(Some(state))
    }

    fn match_state_transition(&self, main: Option<&S>, secondary: Option<&S>) -> (r: MatchesStateTransition) {
        match main {
            None => MatchesStateTransition::NoMatch,
            Some(m) => {
                if !(self.0)(Some(m)) {
                    MatchesStateTransition::NoMatch
                } else if (self.0)(secondary) {
                    MatchesStateTransition::MainMatches
                } else {
                    MatchesStateTransition::TransitionMatches
                }
            },
        }
    }
}

/// Matches through a predicate on the pair (main, secondary).
///
/// Testing one state passes `None` as the secondary; on a pair, `true` reads
/// as `TransitionMatches` and `false` as `NoMatch`.
pub struct ByPair<F>(pub F);

impl<S, F: Fn(Option<&S>, Option<&S>) -> bool> StateMatcher<S> for ByPair<F> {
    open spec fn ready(&self) -> bool {
        forall|x: Option<&S>, y: Option<&S>| call_requires(self.0, (x, y))
    }

    open spec fn state_result(&self, s: &S, r: bool) -> bool {
        call_ensures(self.0, (Some(s), None), r)
    }

    open spec fn transition_result(&self, main: Option<&S>, secondary: Option<&S>, r: MatchesStateTransition) -> bool {
        exists|b: bool|
            call_ensures(self.0, (main, secondary), b) && r == MatchesStateTransition::spec_from_bool(b)
    }

    fn match_state(&self, state: &S) -> (r: bool) {
        (self.0)(Some(state), None)
    }

    fn match_state_transition(&self, main: Option<&S>, secondary: Option<&S>) -> (r: MatchesStateTransition) {
        let b = (self.0)(main, secondary);
        MatchesStateTransition::from_bool(b)
    }
}

/// Matches through a pair predicate that answers with a full outcome.
///
/// Testing one state passes `None` as the secondary; any outcome other than
/// `NoMatch` is a match. On a pair the outcome is passed through.
pub struct ByPairResult<F>(pub F);

impl<S, F: Fn(Option<&S>, Option<&S>) -> MatchesStateTransition> StateMatcher<S> for ByPairResult<F> {
    open spec fn ready(&self) -> bool {
        forall|x: Option<&S>, y: Option<&S>| call_requires(self.0, (x, y))
    }

    open spec fn state_result(&self, s: &S, r: bool) -> bool {
        exists|m: MatchesStateTransition|
            call_ensures(self.0, (Some(s), None), m) && r == m.spec_is_match()
    }

    open spec fn transition_result(&self, main: Option<&S>, secondary: Option<&S>, r: MatchesStateTransition) -> bool {
        call_ensures(self.0, (main, secondary), r)
    }

    fn match_state(&self, state: &S) -> (r: bool) {
        let m = (self.0)(Some(state), None);
        m.is_match()
    }

    fn match_state_transition(&self, main: Option<&S>, secondary: Option<&S>) -> (r: MatchesStateTransition) {
        (self.0)(main, secondary)
    }
}

} // verus!
