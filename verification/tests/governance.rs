//! Governance and access-control behaviour: owner guard, chairman
//! delegation, and population enrolment.

use boards::actor::ActorId;
use boards::state::{BoardState, GuardError};

fn freshly_initialized() -> (BoardState, ActorId, ActorId, ActorId) {
    let owner = ActorId::new(1);
    let chairman = ActorId::new(2);
    let registrar = ActorId::new(9);
    let state = BoardState::init(owner, chairman, registrar);
    (state, owner, chairman, registrar)
}

#[test]
fn owner_guard_accepts_exactly_the_owner() {
    let (state, owner, chairman, _) = freshly_initialized();
    assert!(state._only_owner(owner).is_ok());
    assert_eq!(state._only_owner(chairman), Err(GuardError::NotOwner));
    assert_eq!(state._only_owner(ActorId::new(77)), Err(GuardError::NotOwner));
}

#[test]
fn owner_guard_is_stable_across_mutations() {
    let (mut state, owner, chairman, _) = freshly_initialized();
    state.delegate_to(chairman, ActorId::new(3)).unwrap();
    state.increase_population(chairman);
    assert!(state._only_owner(owner).is_ok());
    assert_eq!(state._only_owner(chairman), Err(GuardError::NotOwner));
}

#[test]
fn initialization_seeds_chairman_roll_with_owner_then_chairman() {
    let (state, owner, chairman, _) = freshly_initialized();
    assert_eq!(state.committee.chairman, vec![owner, chairman]);
    assert!(state.committee.member.is_empty());
    assert!(state.population.0.is_empty());
    assert!(state.rooms.is_empty());
    assert!(state.records.is_empty());
}

#[test]
fn delegation_scenario_grows_roll_and_rejects_outsiders() {
    let a = ActorId::new(1);
    let b = ActorId::new(2);
    let c = ActorId::new(3);
    let d = ActorId::new(4);
    let mut state = BoardState::init(a, b, ActorId::new(9));
    assert_eq!(state.committee.chairman, vec![a, b]);

    assert!(state.delegate_to(b, c).is_ok());
    assert_eq!(state.committee.chairman, vec![a, b, c]);

    let refused = state.delegate_to(d, ActorId::new(5));
    assert_eq!(refused, Err(GuardError::NotInCommittee));
    assert_eq!(state.committee.chairman, vec![a, b, c]);
}

#[test]
fn delegation_grants_the_chairman_role() {
    let (mut state, _, chairman, _) = freshly_initialized();
    let moderator = ActorId::new(3);
    assert!(!state.in_committee_chairman(&moderator));
    state.delegate_to(chairman, moderator).unwrap();
    assert!(state.in_committee_chairman(&moderator));
    // And a freshly granted chairman may delegate in turn.
    assert!(state.delegate_to(moderator, ActorId::new(4)).is_ok());
}

#[test]
fn committee_membership_includes_chairmen() {
    let (state, owner, chairman, _) = freshly_initialized();
    assert!(state.in_committee(&owner));
    assert!(state.in_committee(&chairman));
    assert!(!state.in_committee(&ActorId::new(77)));
}

#[test]
fn population_is_append_only_enrolment() {
    let (mut state, _, chairman, _) = freshly_initialized();
    assert!(!state.in_population(&chairman));
    state.increase_population(chairman);
    assert!(state.in_population(&chairman));
    assert_eq!(state.population.0, vec![chairman]);
}

#[test]
fn guard_errors_carry_the_rejection_text() {
    assert_eq!(GuardError::NotOwner.text(), "not owner");
    assert_eq!(GuardError::NotInCommittee.text(), "not in committee");
}

#[test]
fn owner_only_entry_points_reject_everyone_else() {
    let (state, owner, chairman, _) = freshly_initialized();
    assert!(state.start_talk(owner, String::from("r1")).is_ok());
    assert_eq!(state.start_talk(chairman, String::from("r1")), Err(GuardError::NotOwner));
    assert!(state.open_event(owner).is_ok());
    assert_eq!(state.open_event(chairman), Err(GuardError::NotOwner));
    assert!(state.open_workshop(owner).is_ok());
    assert_eq!(state.open_workshop(chairman), Err(GuardError::NotOwner));
}
