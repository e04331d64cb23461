use state_matching::{
    ByPair, ByPairResult, ByRef, ByState, Equals, MatchableState, MatchesStateTransition, StateMatcher,
};

use MatchesStateTransition::{MainMatches, NoMatch, TransitionMatches};

#[test]
fn equality_matcher_transition_semantics() {
    let x: u32 = 7;
    let y: u32 = 9;
    let m = Equals(x);
    assert_eq!(m.match_state_transition(Some(&x), Some(&x)), MainMatches);
    assert_eq!(m.match_state_transition(Some(&x), Some(&y)), TransitionMatches);
    assert_eq!(m.match_state_transition(Some(&y), Some(&x)), NoMatch);
}

#[test]
fn equality_matcher_absent_states() {
    let m = Equals(3u32);
    assert_eq!(m.match_state_transition(Some(&3), None), TransitionMatches);
    assert_eq!(m.match_state_transition(None, Some(&3)), NoMatch);
    assert_eq!(m.match_state_transition(None, None), NoMatch);
}

#[test]
fn equality_matcher_single_state() {
    let m = Equals(true);
    assert!(m.match_state(&true));
    assert!(!m.match_state(&false));
    assert!(true.matches(&m));
}

#[test]
fn ref_predicate_matcher() {
    let even = ByRef(|s: &u32| *s % 2 == 0);
    assert!(even.match_state(&4));
    assert!(!even.match_state(&5));
    assert_eq!(even.match_state_transition(Some(&4), Some(&6)), MainMatches);
    assert_eq!(even.match_state_transition(Some(&4), Some(&5)), TransitionMatches);
    assert_eq!(even.match_state_transition(Some(&4), None), TransitionMatches);
    assert_eq!(even.match_state_transition(Some(&5), Some(&4)), NoMatch);
    assert_eq!(even.match_state_transition(None, Some(&4)), NoMatch);
}

#[test]
fn optional_predicate_matcher_sees_absent_secondary() {
    // Matches an even state, and also an absent one.
    let m = ByState(|s: Option<&u32>| s.map_or(true, |v| *v % 2 == 0));
    assert!(m.match_state(&2));
    assert!(!m.match_state(&3));
    assert_eq!(m.match_state_transition(Some(&2), None), MainMatches);
    assert_eq!(m.match_state_transition(Some(&2), Some(&3)), TransitionMatches);
    assert_eq!(m.match_state_transition(Some(&2), Some(&8)), MainMatches);
    assert_eq!(m.match_state_transition(Some(&3), None), NoMatch);
    assert_eq!(m.match_state_transition(None, None), NoMatch);
}

#[test]
fn pair_predicate_matcher_passes_both_states() {
    // Matches a rise from a smaller state.
    let rise = ByPair(|a: Option<&u32>, b: Option<&u32>| match (a, b) {
        (Some(a), Some(b)) => a > b,
        (Some(_), None) => true,
        _ => false,
    });
    assert!(rise.match_state(&1));
    assert_eq!(rise.match_state_transition(Some(&5), Some(&2)), TransitionMatches);
    assert_eq!(rise.match_state_transition(Some(&2), Some(&5)), NoMatch);
    assert_eq!(rise.match_state_transition(Some(&2), Some(&2)), NoMatch);
}

#[test]
fn pair_result_matcher_passes_outcome_through() {
    let m = ByPairResult(|a: Option<&u32>, b: Option<&u32>| match (a, b) {
        (Some(a), Some(b)) if a == b => MainMatches,
        (Some(_), _) => TransitionMatches,
        _ => NoMatch,
    });
    assert_eq!(m.match_state_transition(Some(&1), Some(&1)), MainMatches);
    assert_eq!(m.match_state_transition(Some(&1), Some(&2)), TransitionMatches);
    assert_eq!(m.match_state_transition(None, Some(&2)), NoMatch);
    assert!(m.match_state(&4));
    let never = ByPairResult(|_: Option<&u32>, _: Option<&u32>| NoMatch);
    assert!(!never.match_state(&4));
    let main_only = ByPairResult(|_: Option<&u32>, _: Option<&u32>| MainMatches);
    assert!(main_only.match_state(&4));
}

#[test]
fn match_result_reads_as_boolean() {
    assert!(!NoMatch.is_match());
    assert!(MainMatches.is_match());
    assert!(TransitionMatches.is_match());
    assert_eq!(MatchesStateTransition::from_bool(true), TransitionMatches);
    assert_eq!(MatchesStateTransition::from_bool(false), NoMatch);
}

#[test]
fn matches_transition_through_the_trait() {
    assert_eq!(u32::matches_transition(&Equals(1u32), Some(&1), Some(&1)), MainMatches);
    assert_eq!(bool::matches_transition(&Equals(true), Some(&true), Some(&false)), TransitionMatches);
}
