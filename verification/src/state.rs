//! Persistent state of a governing actor and its entry points:
//! initialization, access-control guards, governance (chairman
//! delegation), population enrolment, room lifecycle, and the
//! durability pair that survives a restart.
//!
//! Every mutating entry point checks its guard first and leaves the
//! state untouched when the guard fails; every successful mutation is
//! stated as a pure transition over [`StateView`].

use vstd::prelude::*;
use crate::actor::ActorId;
use crate::types::{
    Board, Committee, CommitteeView, Population, Record, Room, RoomTopic, RoomView, Ticket,
    clone_ids, ticket_admits,
};

verus! {

/// Why a guarded entry point rejected its caller.
#[derive(Clone, Copy, Debug, PartialEq, Eq, Structural)]
pub enum GuardError {
    NotOwner,
    NotInCommittee,
}

impl GuardError {
    /// The rejection text reported to the external caller.
    pub fn text(&self) -> (r: &'static str)
        ensures
            *self is NotOwner ==> r@ == "not owner"@,
            *self is NotInCommittee ==> r@ == "not in committee"@,
    {
        match self {
            GuardError::NotOwner => "not owner",
            GuardError::NotInCommittee => "not in committee",
        }
    }
}

/// Outcome of a join request: the room was joined, the admission rule
/// rejected the caller, or no room carries the requested id.
#[derive(Clone, Copy, Debug, PartialEq, Eq, Structural)]
pub enum JoinOutcome {
    Joined,
    Rejected,
    NotFound,
}

/// Mathematical value of a room roll.
pub open spec fn rooms_view(v: Seq<Room>) -> Seq<RoomView> {
    v.map(|i: int, r: Room| r@)
}

/// Mathematical value of a record roll.
pub open spec fn records_view(v: Seq<Record>) -> Seq<Seq<char>> {
    v.map(|i: int, r: Record| r@)
}

/// Mathematical value of a [`BoardState`].
#[verifier::ext_equal]
pub ghost struct StateView {
    pub owner: ActorId,
    pub registrar: ActorId,
    pub committee: CommitteeView,
    pub population: Seq<ActorId>,
    pub rooms: Seq<RoomView>,
    pub records: Seq<Seq<char>>,
    pub board: Seq<char>,
}

impl StateView {
    /// Caller holds the chairman role.
    pub open spec fn is_chairman(self, p: ActorId) -> bool {
        self.committee.chairman.contains(p)
    }

    /// Caller is on the committee: plain member or chairman.
    pub open spec fn is_committee(self, p: ActorId) -> bool {
        self.committee.member.contains(p) || self.committee.chairman.contains(p)
    }

    /// Caller is enrolled in the population.
    pub open spec fn is_population(self, p: ActorId) -> bool {
        self.population.contains(p)
    }
}

/// State immediately after initialization: the owner is fixed, the
/// chairman roll seeds with the owner followed by the named chairman,
/// and everything else is empty.
pub open spec fn init_view(owner: ActorId, chairman: ActorId, registrar: ActorId) -> StateView {
    StateView {
        owner,
        registrar,
        committee: CommitteeView {
            chairman: seq![owner, chairman],
            member: Seq::empty(),
        },
        population: Seq::empty(),
        rooms: Seq::empty(),
        records: Seq::empty(),
        board: Seq::empty(),
    }
}

/// Successful delegation appends the new moderator to the chairman roll.
pub open spec fn delegate_view(s: StateView, moderator: ActorId) -> StateView {
    StateView {
        committee: CommitteeView {
            chairman: s.committee.chairman.push(moderator),
            ..s.committee
        },
        ..s
    }
}

/// Enrolment appends the person to the population.
pub open spec fn enroll_view(s: StateView, person: ActorId) -> StateView {
    StateView { population: s.population.push(person), ..s }
}

/// Opening a room appends one empty room under the given id.
pub open spec fn open_room_view(s: StateView, id: Seq<char>) -> StateView {
    StateView {
        rooms: s.rooms.push(RoomView { id, audiens: Seq::empty() }),
        ..s
    }
}

/// Index of the first room at or after position `k` whose id matches,
/// or -1 when none matches.
pub open spec fn match_from(rooms: Seq<RoomView>, id: Seq<char>, k: int) -> int
    decreases rooms.len() - k,
{
    if k < 0 || k >= rooms.len() {
        -1
    } else if rooms[k].id == id {
        k
    } else {
        match_from(rooms, id, k + 1)
    }
}

/// Index of the first room whose id matches, or -1 when none matches.
pub open spec fn room_index(rooms: Seq<RoomView>, id: Seq<char>) -> int {
    match_from(rooms, id, 0)
}

/// The room a lookup returns: the first exact id match, if any.
pub open spec fn found_room(s: StateView, id: Seq<char>) -> Option<RoomView> {
    let i = room_index(s.rooms, id);
    if i < 0 {
        None
    } else {
        Some(s.rooms[i])
    }
}

/// State after a join request: unchanged when the room is missing or
/// the admission rule rejects the caller; otherwise the caller is
/// appended to the matched room's audience.
pub open spec fn join_room_view(
    s: StateView,
    caller: ActorId,
    id: Seq<char>,
    ticket: Option<Ticket>,
) -> StateView {
    let i = room_index(s.rooms, id);
    if i < 0 {
        s
    } else if ticket_admits(caller, ticket) {
        StateView {
            rooms: s.rooms.update(
                i,
                RoomView { id: s.rooms[i].id, audiens: s.rooms[i].audiens.push(caller) },
            ),
            ..s
        }
    } else {
        s
    }
}

/// Mathematical value of an [`UpgradePayload`].
#[verifier::ext_equal]
pub ghost struct PayloadView {
    pub rooms: Seq<RoomView>,
    pub records: Seq<Seq<char>>,
    pub population: Seq<ActorId>,
    pub committee: CommitteeView,
    pub board: Seq<char>,
}

/// What a snapshot captures: exactly the five durable roots.
pub open spec fn snapshot_view(s: StateView) -> PayloadView {
    PayloadView {
        rooms: s.rooms,
        records: s.records,
        population: s.population,
        committee: s.committee,
        board: s.board,
    }
}

/// What a restore installs: the payload's five roots; the actor
/// identities are not part of the payload and stay as they are.
pub open spec fn restore_view(s: StateView, p: PayloadView) -> StateView {
    StateView {
        owner: s.owner,
        registrar: s.registrar,
        committee: p.committee,
        population: p.population,
        rooms: p.rooms,
        records: p.records,
        board: p.board,
    }
}

/// The durability payload: one aggregate value holding the five durable
/// roots, written atomically before a restart and read back after it.
#[derive(Debug)]
pub struct UpgradePayload {
    pub rooms: Vec<Room>,
    pub records: Vec<Record>,
    pub population: Vec<ActorId>,
    pub committee: Committee,
    pub board: Board,
}

impl View for UpgradePayload {
    type V = PayloadView;

    open spec fn view(&self) -> PayloadView {
        PayloadView {
            rooms: rooms_view(self.rooms@),
            records: records_view(self.records@),
            population: self.population@,
            committee: self.committee@,
            board: self.board@,
        }
    }
}

/// The full private state of one governing actor. The owner and the
/// registrar address are fixed at initialization; the five durable
/// roots change only through the entry points below.
#[derive(Debug)]
pub struct BoardState {
    pub owner: ActorId,
    pub registrar: ActorId,
    pub committee: Committee,
    pub population: Population,
    pub rooms: Vec<Room>,
    pub records: Vec<Record>,
    pub board: Board,
}

impl View for BoardState {
    type V = StateView;

    open spec fn view(&self) -> StateView {
        StateView {
            owner: self.owner,
            registrar: self.registrar,
            committee: self.committee@,
            population: self.population@,
            rooms: rooms_view(self.rooms@),
            records: records_view(self.records@),
            board: self.board@,
        }
    }
}

/// Roll membership: whether `p` stands anywhere in `v`.
pub fn ids_contain(v: &Vec<ActorId>, p: &ActorId) -> (r: bool)
    ensures
        r == v@.contains(*p),
{
    let mut i: usize = 0;
    while i < v.len()
        invariant
            i <= v.len(),
            forall|j: int| 0 <= j < i ==> v@[j] != *p,
        decreases v.len() - i,
    {
        if v[i].equals(p) {
            return true;
        }
        i = i + 1;
    }
    false
}

impl BoardState {
    /// Fixes the owner and the registrar address and seeds the chairman
    /// roll with the owner and the named chairman; all durable roots
    /// start empty.
    pub fn init(owner: ActorId, chairman: ActorId, nais: ActorId) -> (r: BoardState)
        ensures
            r@ == init_view(owner, chairman, nais),
    {
        let mut committee = Committee::default();
        committee.chairman.push(owner);
        committee.chairman.push(chairman);
        let r = BoardState {
            owner,
            registrar: nais,
            committee,
            population: Population::default(),
            rooms: Vec::new(),
            records: Vec::new(),
            board: Board::default(),
        };
        proof {
            assert(r@ =~= init_view(owner, chairman, nais));
        }
        r
    }

    /// The board configuration object.
    pub fn get(&self) -> (r: &Board)
        ensures
            r@ == self@.board,
    {
        &self.board
    }

    /// Whether the person holds the chairman role.
    pub fn in_committee_chairman(&self, person: &ActorId) -> (r: bool)
        ensures
            r == self@.is_chairman(*person),
    {
        ids_contain(&self.committee.chairman, person)
    }

    /// Whether the person is on the committee (member or chairman).
    pub fn in_committee(&self, person: &ActorId) -> (r: bool)
        ensures
            r == self@.is_committee(*person),
    {
        ids_contain(&self.committee.member, person) || ids_contain(&self.committee.chairman, person)
    }

    /// Whether the person is enrolled in the population.
    pub fn in_population(&self, person: &ActorId) -> (r: bool)
        ensures
            r == self@.is_population(*person),
    {
        ids_contain(&self.population.0, person)
    }

    /// Enrols a person into the population (append-only).
    pub fn increase_population(&mut self, person: ActorId)
        ensures
            final(self)@ == enroll_view(old(self)@, person),
    {
        self.population.0.push(person);
        proof {
            assert(final(self)@ =~= enroll_view(old(self)@, person));
        }
    }

    /// Owner guard: succeeds exactly for the owner fixed at
    /// initialization.
    pub fn _only_owner(&self, caller: ActorId) -> (r: Result<(), GuardError>)
        ensures
            r is Ok <==> caller == self@.owner,
            r is Err ==> r->Err_0 is NotOwner,
    {
        if self.owner.equals(&caller) {
            Ok(())
        } else {
            Err(GuardError::NotOwner)
        }
    }

    /// Chairman guard: succeeds exactly for callers on the chairman
    /// roll.
    pub fn _only_chairman(&self, caller: ActorId) -> (r: Result<(), GuardError>)
        ensures
            r is Ok <==> self@.is_chairman(caller),
            r is Err ==> r->Err_0 is NotInCommittee,
    {
        if self.in_committee_chairman(&caller) {
            Ok(())
        } else {
            Err(GuardError::NotInCommittee)
        }
    }

    /// Delegates the chairman role to a further moderator. Only a
    /// chairman may delegate; on rejection the state is unchanged.
    /// Delegation appends without de-duplicating: delegating to a
    /// sitting chairman leaves a duplicate entry on the roll, which is
    /// harmless for the role check.
    pub fn delegate_to(&mut self, caller: ActorId, moderator: ActorId) -> (r: Result<
        (),
        GuardError,
    >)
        ensures
            r is Ok <==> old(self)@.is_chairman(caller),
            r is Ok ==> final(self)@ == delegate_view(old(self)@, moderator),
            r is Err ==> final(self)@ == old(self)@ && r->Err_0 is NotInCommittee,
    {
        let guard = self._only_chairman(caller);
        match guard {
            Ok(()) => {
                self.committee.chairman.push(moderator);
                proof {
                    assert(final(self)@ =~= delegate_view(old(self)@, moderator));
                }
                Ok(())
            },
            Err(e) => Err(e),
        }
    }

    /// Lists rooms by topic; the one topic lists every room, as copies.
    pub fn talk(&self, topic: RoomTopic) -> (r: Vec<Room>)
        ensures
            rooms_view(r@) == self@.rooms,
    {
        match topic {
            RoomTopic::All => {
                let mut out: Vec<Room> = Vec::new();
                let mut i: usize = 0;
                while i < self.rooms.len()
                    invariant
                        i <= self.rooms.len(),
                        out@.len() == i,
                        forall|j: int| 0 <= j < i ==> out@[j]@ == self.rooms@[j]@,
                    decreases self.rooms.len() - i,
                {
                    out.push(self.rooms[i].clone());
                    i = i + 1;
                }
                proof {
                    assert(rooms_view(out@) =~= self@.rooms);
                }
                out
            },
        }
    }

    /// Opens a new, empty room under a fresh id. The caller must hold
    /// the chairman role; a chairman who is not enrolled in the
    /// population opens nothing and the state is unchanged.
    pub fn open_room(&mut self, caller: ActorId, fresh_id: String) -> (r: Result<(), GuardError>)
        requires
            forall|i: int|
                0 <= i < old(self)@.rooms.len() ==> old(self)@.rooms[i].id != fresh_id@,
        ensures
            r is Ok <==> old(self)@.is_chairman(caller),
            r is Ok && old(self)@.is_population(caller) ==> final(self)@ == open_room_view(
                old(self)@,
                fresh_id@,
            ),
            r is Ok && !old(self)@.is_population(caller) ==> final(self)@ == old(self)@,
            r is Err ==> final(self)@ == old(self)@ && r->Err_0 is NotInCommittee,
    {
        let guard = self._only_chairman(caller);
        match guard {
            Ok(()) => {
                if self.in_population(&caller) {
                    let room = Room::new(fresh_id);
                    self.rooms.push(room);
                    proof {
                        assert(final(self)@ =~= open_room_view(old(self)@, fresh_id@));
                    }
                }
                Ok(())
            },
            Err(e) => Err(e),
        }
    }

    /// Index of the first room whose id matches, if any.
    fn room_position(&self, room_id: &String) -> (r: Option<usize>)
        ensures
            match r {
                Some(i) => i < self.rooms@.len() && room_index(self@.rooms, room_id@) == i,
                None => room_index(self@.rooms, room_id@) == -1,
            },
    {
        let mut i: usize = 0;
        while i < self.rooms.len()
            invariant
                i <= self.rooms.len(),
                room_index(self@.rooms, room_id@) == match_from(self@.rooms, room_id@, i as int),
            decreases self.rooms.len() - i,
        {
            if self.rooms[i].id == *room_id {
                return Some(i);
            }
            i = i + 1;
        }
        None
    }

    /// Looks a room up by id: a linear scan for the first exact match,
    /// returning a copy of the stored room. The result is a pure
    /// function of the current state, so two lookups with no mutation
    /// in between return equal values.
    pub fn find_room(&self, room_id: String) -> (r: Option<Room>)
        ensures
            match r {
                Some(room) => found_room(self@, room_id@) == Some(room@),
                None => found_room(self@, room_id@) is None,
            },
    {
        match self.room_position(&room_id) {
            Some(i) => Some(self.rooms[i].clone()),
            None => None,
        }
    }

    /// Admits the caller to the named room. When the room is missing
    /// the request is a no-op reporting `NotFound`; when the admission
    /// rule rejects the caller the audience is unchanged; otherwise the
    /// caller is recorded in the stored room's audience.
    pub fn join_room(&mut self, caller: ActorId, ticket: Option<Ticket>, room_id: String) -> (r:
        JoinOutcome)
        ensures
            final(self)@ == join_room_view(old(self)@, caller, room_id@, ticket),
            r is NotFound <==> room_index(old(self)@.rooms, room_id@) == -1,
            r is Joined <==> room_index(old(self)@.rooms, room_id@) >= 0 && ticket_admits(
                caller,
                ticket,
            ),
            r is Rejected <==> room_index(old(self)@.rooms, room_id@) >= 0 && !ticket_admits(
                caller,
                ticket,
            ),
    {
        match self.room_position(&room_id) {
            Some(i) => {
                let admitted = self.rooms[i].can_join(&caller, ticket);
                if admitted {
                    self.rooms[i].audiens.push(caller);
                    proof {
                        assert(final(self)@.rooms =~= join_room_view(
                            old(self)@,
                            caller,
                            room_id@,
                            ticket,
                        ).rooms);
                        assert(final(self)@ =~= join_room_view(
                            old(self)@,
                            caller,
                            room_id@,
                            ticket,
                        ));
                    }
                    JoinOutcome::Joined
                } else {
                    JoinOutcome::Rejected
                }
            },
            None => JoinOutcome::NotFound,
        }
    }

    /// Starts a session in a room. Owner-only; the session itself is
    /// carried by the collaborating room actor, so no local state
    /// changes.
    pub fn start_talk(&self, caller: ActorId, room_id: String) -> (r: Result<(), GuardError>)
        ensures
            r is Ok <==> caller == self@.owner,
            r is Err ==> r->Err_0 is NotOwner,
    {
        let _ = room_id;
        self._only_owner(caller)
    }

    /// Records appreciation; intentionally without effect on durable
    /// state.
    pub fn like(&self) {
    }

    /// Opens an event. Owner-only; the event itself is carried by a
    /// collaborator, so no local state changes.
    pub fn open_event(&self, caller: ActorId) -> (r: Result<(), GuardError>)
        ensures
            r is Ok <==> caller == self@.owner,
            r is Err ==> r->Err_0 is NotOwner,
    {
        self._only_owner(caller)
    }

    /// Opens a workshop. Owner-only; the workshop itself is carried by
    /// a collaborator, so no local state changes.
    pub fn open_workshop(&self, caller: ActorId) -> (r: Result<(), GuardError>)
        ensures
            r is Ok <==> caller == self@.owner,
            r is Err ==> r->Err_0 is NotOwner,
    {
        self._only_owner(caller)
    }

    /// Captures the five durable roots as one payload, synchronously
    /// and without any inter-actor call: the snapshot taken immediately
    /// before the actor is torn down for an upgrade.
    pub fn pre_upgrade(&self) -> (r: UpgradePayload)
        ensures
            r@ == snapshot_view(self@),
    {
        let mut rooms: Vec<Room> = Vec::new();
        let mut i: usize = 0;
        while i < self.rooms.len()
            invariant
                i <= self.rooms.len(),
                rooms@.len() == i,
                forall|j: int| 0 <= j < i ==> rooms@[j]@ == self.rooms@[j]@,
            decreases self.rooms.len() - i,
        {
            rooms.push(self.rooms[i].clone());
            i = i + 1;
        }
        let mut records: Vec<Record> = Vec::new();
        let mut k: usize = 0;
        while k < self.records.len()
            invariant
                k <= self.records.len(),
                records@.len() == k,
                forall|j: int| 0 <= j < k ==> records@[j]@ == self.records@[j]@,
            decreases self.records.len() - k,
        {
            records.push(self.records[k].clone());
            k = k + 1;
        }
        let r = UpgradePayload {
            rooms,
            records,
            population: clone_ids(&self.population.0),
            committee: self.committee.clone(),
            board: self.board.clone(),
        };
        proof {
            assert(r@ =~= snapshot_view(self@));
        }
        r
    }

    /// Installs a payload's five roots as the current state: the
    /// restore performed immediately after a fresh actor image starts.
    /// The owner and registrar identities are not part of the payload
    /// and keep their values.
    pub fn post_upgrade(&mut self, payload: UpgradePayload)
        ensures
            final(self)@ == restore_view(old(self)@, payload@),
    {
        let UpgradePayload { rooms, records, population, committee, board } = payload;
        self.rooms = rooms;
        self.records = records;
        self.population = Population(population);
        self.committee = committee;
        self.board = board;
        proof {
            assert(final(self)@ =~= restore_view(old(self)@, payload@));
        }
    }
}

} // verus!
