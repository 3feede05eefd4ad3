//! Durable data shapes owned by a governing actor: committee roles,
//! population membership, rooms with their audiences, audit records and
//! the board configuration object.

use vstd::prelude::*;
use crate::actor::ActorId;

verus! {

/// Admission credential presented when joining a room. A ticket names
/// the actor it was issued to.
#[derive(Clone, Copy, Debug, PartialEq, Eq, Structural)]
pub struct Ticket {
    pub holder: ActorId,
}

/// The admission rule: a caller may join a room only by presenting a
/// ticket issued to that caller. An absent ticket never admits.
pub open spec fn ticket_admits(caller: ActorId, ticket: Option<Ticket>) -> bool {
    match ticket {
        Some(t) => t.holder == caller,
        None => false,
    }
}

/// A discussion room: identified by `id`, compared by exact match, with
/// the audience admitted so far.
#[derive(Debug)]
pub struct Room {
    pub id: String,
    pub audiens: Vec<ActorId>,
}

/// Mathematical value of a [`Room`].
#[verifier::ext_equal]
pub ghost struct RoomView {
    pub id: Seq<char>,
    pub audiens: Seq<ActorId>,
}

impl View for Room {
    type V = RoomView;

    open spec fn view(&self) -> RoomView {
        RoomView { id: self.id@, audiens: self.audiens@ }
    }
}

impl Room {
    pub fn new(id: String) -> (r: Room)
        ensures
            r@.id == id@,
            r@.audiens == Seq::<ActorId>::empty(),
    {
        Room { id, audiens: Vec::new() }
    }

    /// Evaluates the admission rule for this room against the caller
    /// and an optional ticket.
    pub fn can_join(&self, caller: &ActorId, ticket: Option<Ticket>) -> (r: bool)
        ensures
            r == ticket_admits(*caller, ticket),
    {
        match ticket {
            Some(t) => t.holder.equals(caller),
            None => false,
        }
    }
}

impl Clone for Room {
    fn clone(&self) -> (r: Self)
        ensures
            r@ == self@,
    {
        let r = Room { id: self.id.clone(), audiens: clone_ids(&self.audiens) };
        proof {
            assert(r@ =~= self@);
        }
        r
    }
}

/// Append-only audit entry; never mutated after creation.
#[derive(Debug)]
pub struct Record {
    pub note: String,
}

impl View for Record {
    type V = Seq<char>;

    open spec fn view(&self) -> Seq<char> {
        self.note@
    }
}

impl Clone for Record {
    fn clone(&self) -> (r: Self)
        ensures
            r == *self,
    {
        Record { note: self.note.clone() }
    }
}

/// Aggregate configuration object of the governing actor; opaque to the
/// governance logic beyond being durable.
#[derive(Debug)]
pub struct Board {
    pub title: String,
}

impl View for Board {
    type V = Seq<char>;

    open spec fn view(&self) -> Seq<char> {
        self.title@
    }
}

impl Clone for Board {
    fn clone(&self) -> (r: Self)
        ensures
            r == *self,
    {
        Board { title: self.title.clone() }
    }
}

impl Default for Board {
    fn default() -> (r: Self)
        ensures
            r@ == Seq::<char>::empty(),
    {
        Board { title: String::new() }
    }
}

/// Committee of the governing actor: the chairman roll and the plain
/// member roll. Chairmen count as members.
#[derive(Debug)]
pub struct Committee {
    pub chairman: Vec<ActorId>,
    pub member: Vec<ActorId>,
}

/// Mathematical value of a [`Committee`].
#[verifier::ext_equal]
pub ghost struct CommitteeView {
    pub chairman: Seq<ActorId>,
    pub member: Seq<ActorId>,
}

impl View for Committee {
    type V = CommitteeView;

    open spec fn view(&self) -> CommitteeView {
        CommitteeView { chairman: self.chairman@, member: self.member@ }
    }
}

impl Clone for Committee {
    fn clone(&self) -> (r: Self)
        ensures
            r@ == self@,
    {
        let r = Committee { chairman: clone_ids(&self.chairman), member: clone_ids(&self.member) };
        proof {
            assert(r@ =~= self@);
        }
        r
    }
}

impl Default for Committee {
    fn default() -> (r: Self)
        ensures
            r@.chairman == Seq::<ActorId>::empty(),
            r@.member == Seq::<ActorId>::empty(),
    {
        Committee { chairman: Vec::new(), member: Vec::new() }
    }
}

/// Enrolled members of the federation; append-only.
#[derive(Debug)]
pub struct Population(pub Vec<ActorId>);

impl View for Population {
    type V = Seq<ActorId>;

    open spec fn view(&self) -> Seq<ActorId> {
        self.0@
    }
}

impl Clone for Population {
    fn clone(&self) -> (r: Self)
        ensures
            r@ == self@,
    {
        Population(clone_ids(&self.0))
    }
}

impl Default for Population {
    fn default() -> (r: Self)
        ensures
            r@ == Seq::<ActorId>::empty(),
    {
        Population(Vec::new())
    }
}

/// A named group of members, carried by collaborating room actors.
#[derive(Debug, Clone)]
pub struct Group {
    pub group_members: Vec<String>,
}

/// A position in a three-dimensional space, used by board layouts.
#[derive(Debug, Default, Clone, Copy, PartialEq, Eq, Structural)]
pub struct Point(pub i32, pub i32, pub i32);

/// Filter for listing rooms.
#[derive(Debug, Clone, Copy, PartialEq, Eq, Structural)]
pub enum RoomTopic {
    All,
}

/// Exact copy of a roll of actor identities.
pub fn clone_ids(v: &Vec<ActorId>) -> (r: Vec<ActorId>)
    ensures
        r@ == v@,
{
    let mut r: Vec<ActorId> = Vec::new();
    let mut i: usize = 0;
    while i < v.len()
        invariant
            i <= v.len(),
            r@ == v@.subrange(0, i as int),
        decreases v.len() - i,
    {
        r.push(v[i]);
        i = i + 1;
    }
    proof {
        assert(r@ =~= v@);
    }
    r
}

} // verus!
