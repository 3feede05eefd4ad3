//! Room lifecycle behaviour: opening, lookup, admission, listing, and
//! the durability round trip.

use boards::actor::ActorId;
use boards::state::{BoardState, JoinOutcome};
use boards::types::{Room, RoomTopic, Ticket};

fn board_with_room(room_id: &str) -> (BoardState, ActorId, ActorId) {
    let owner = ActorId::new(1);
    let chairman = ActorId::new(2);
    let mut state = BoardState::init(owner, chairman, ActorId::new(9));
    state.increase_population(chairman);
    state.open_room(chairman, String::from(room_id)).unwrap();
    (state, owner, chairman)
}

#[test]
fn open_room_appends_fresh_empty_room() {
    let (state, _, _) = board_with_room("atrium");
    assert_eq!(state.rooms.len(), 1);
    assert_eq!(state.rooms[0].id, "atrium");
    assert!(state.rooms[0].audiens.is_empty());
}

#[test]
fn open_room_needs_population_membership() {
    let owner = ActorId::new(1);
    let chairman = ActorId::new(2);
    let mut state = BoardState::init(owner, chairman, ActorId::new(9));
    // A chairman who is not enrolled opens nothing.
    assert!(state.open_room(chairman, String::from("atrium")).is_ok());
    assert!(state.rooms.is_empty());
}

#[test]
fn open_room_needs_the_chairman_role() {
    let (mut state, _, _) = board_with_room("atrium");
    let stranger = ActorId::new(50);
    state.increase_population(stranger);
    assert!(state.open_room(stranger, String::from("lobby")).is_err());
    assert_eq!(state.rooms.len(), 1);
}

#[test]
fn find_room_returns_copy_of_first_match() {
    let (mut state, _, chairman) = board_with_room("atrium");
    state.open_room(chairman, String::from("lobby")).unwrap();
    let found = state.find_room(String::from("lobby")).unwrap();
    assert_eq!(found.id, "lobby");
    assert!(found.audiens.is_empty());
    assert!(state.find_room(String::from("cellar")).is_none());
}

#[test]
fn find_room_is_idempotent_without_mutation() {
    let (state, _, _) = board_with_room("atrium");
    let first = state.find_room(String::from("atrium"));
    let second = state.find_room(String::from("atrium"));
    match (first, second) {
        (Some(a), Some(b)) => {
            assert_eq!(a.id, b.id);
            assert_eq!(a.audiens, b.audiens);
        },
        _ => panic!("room should be found both times"),
    }
    let missing_first = state.find_room(String::from("cellar"));
    let missing_second = state.find_room(String::from("cellar"));
    assert!(missing_first.is_none() && missing_second.is_none());
}

#[test]
fn join_missing_room_is_a_noop_not_found() {
    let (mut state, _, chairman) = board_with_room("atrium");
    let before_len = state.rooms[0].audiens.len();
    let outcome = state.join_room(
        chairman,
        Some(Ticket { holder: chairman }),
        String::from("cellar"),
    );
    assert_eq!(outcome, JoinOutcome::NotFound);
    assert_eq!(state.rooms.len(), 1);
    assert_eq!(state.rooms[0].audiens.len(), before_len);
}

#[test]
fn join_rejected_leaves_audience_unchanged() {
    let (mut state, _, chairman) = board_with_room("atrium");
    // No ticket at all.
    let no_ticket = state.join_room(chairman, None, String::from("atrium"));
    assert_eq!(no_ticket, JoinOutcome::Rejected);
    // A ticket issued to someone else.
    let wrong_ticket = state.join_room(
        chairman,
        Some(Ticket { holder: ActorId::new(77) }),
        String::from("atrium"),
    );
    assert_eq!(wrong_ticket, JoinOutcome::Rejected);
    assert!(state.rooms[0].audiens.is_empty());
}

#[test]
fn join_with_own_ticket_records_the_caller_durably() {
    let (mut state, _, chairman) = board_with_room("atrium");
    let guest = ActorId::new(30);
    let outcome = state.join_room(guest, Some(Ticket { holder: guest }), String::from("atrium"));
    assert_eq!(outcome, JoinOutcome::Joined);
    // The admission is written back to the stored room, not to a copy.
    assert_eq!(state.rooms[0].audiens, vec![guest]);
    let found = state.find_room(String::from("atrium")).unwrap();
    assert_eq!(found.audiens, vec![guest]);
}

#[test]
fn admission_rule_requires_a_ticket_issued_to_the_caller() {
    let caller = ActorId::new(5);
    let room = Room::new(String::from("atrium"));
    assert!(room.can_join(&caller, Some(Ticket { holder: caller })));
    assert!(!room.can_join(&caller, Some(Ticket { holder: ActorId::new(6) })));
    assert!(!room.can_join(&caller, None));
}

#[test]
fn talk_lists_every_room() {
    let (mut state, _, chairman) = board_with_room("atrium");
    state.open_room(chairman, String::from("lobby")).unwrap();
    let rooms = state.talk(RoomTopic::All);
    assert_eq!(rooms.len(), 2);
    assert_eq!(rooms[0].id, "atrium");
    assert_eq!(rooms[1].id, "lobby");
}

#[test]
fn snapshot_restore_round_trip_preserves_all_roots() {
    let (mut state, owner, chairman) = board_with_room("atrium");
    let guest = ActorId::new(30);
    state.join_room(guest, Some(Ticket { holder: guest }), String::from("atrium"));

    let payload = state.pre_upgrade();
    // A fresh image starts with defaults, then restores the payload.
    let mut revived = BoardState::init(owner, chairman, ActorId::new(9));
    revived.post_upgrade(payload);

    assert_eq!(revived.committee.chairman, state.committee.chairman);
    assert_eq!(revived.committee.member, state.committee.member);
    assert_eq!(revived.population.0, state.population.0);
    assert_eq!(revived.rooms.len(), state.rooms.len());
    assert_eq!(revived.rooms[0].id, state.rooms[0].id);
    assert_eq!(revived.rooms[0].audiens, state.rooms[0].audiens);
    assert_eq!(revived.records.len(), state.records.len());
    assert_eq!(revived.board.title, state.board.title);
    assert_eq!(revived.owner, state.owner);
    assert_eq!(revived.registrar, state.registrar);
}

#[test]
fn snapshot_does_not_disturb_the_live_state() {
    let (state, _, _) = board_with_room("atrium");
    let payload = state.pre_upgrade();
    assert_eq!(payload.rooms.len(), 1);
    assert_eq!(payload.rooms[0].id, "atrium");
    assert_eq!(state.rooms.len(), 1);
}
