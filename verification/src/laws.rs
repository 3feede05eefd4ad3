//! Laws of the governance model, proved once for every state: who the
//! guards accept, how the chairman roll can change, that the durability
//! pair loses nothing, that rejected or misaddressed join requests
//! leave the state alone, and that a failed provisioning step keeps the
//! created actor's identity and stops the flow.

use vstd::prelude::*;
use crate::actor::ActorId;
use crate::call::CallError;
use crate::provision::{
    ProvisionStatus, ProvisionStep, created_view, next_step_view, on_install_view,
};
use crate::state::{
    PayloadView, StateView, delegate_view, enroll_view, init_view, join_room_view,
    open_room_view, restore_view, room_index, snapshot_view,
};
use crate::types::{Ticket, ticket_admits};

verus! {

/// One mutating entry-point invocation, as it acts on the state: the
/// transition each guarded entry point performs when its guard accepts
/// the caller, and the identity otherwise.
pub ghost enum Op {
    Delegate { caller: ActorId, moderator: ActorId },
    Enroll { person: ActorId },
    OpenRoom { caller: ActorId, id: Seq<char> },
    JoinRoom { caller: ActorId, id: Seq<char>, ticket: Option<Ticket> },
}

/// The state after one entry-point invocation: guards that reject leave
/// the state unchanged; accepted invocations perform their transition.
pub open spec fn step_view(s: StateView, op: Op) -> StateView {
    match op {
        Op::Delegate { caller, moderator } => if s.is_chairman(caller) {
            delegate_view(s, moderator)
        } else {
            s
        },
        Op::Enroll { person } => enroll_view(s, person),
        Op::OpenRoom { caller, id } => if s.is_chairman(caller) && s.is_population(caller) {
            open_room_view(s, id)
        } else {
            s
        },
        Op::JoinRoom { caller, id, ticket } => join_room_view(s, caller, id, ticket),
    }
}

/// The owner fixed at initialization never changes: no entry-point
/// invocation, whoever calls it, touches the owner, so the owner guard
/// accepts exactly the initial owner for the actor's whole lifetime.
pub proof fn lemma_owner_fixed(s: StateView, op: Op)
    ensures
        step_view(s, op).owner == s.owner,
{
}

/// The registrar address fixed at initialization never changes either.
pub proof fn lemma_registrar_fixed(s: StateView, op: Op)
    ensures
        step_view(s, op).registrar == s.registrar,
{
}

/// Initialization seeds the chairman roll with exactly the owner and
/// the named chairman, in that order.
pub proof fn lemma_init_chairmen(owner: ActorId, chairman: ActorId, registrar: ActorId)
    ensures
        init_view(owner, chairman, registrar).committee.chairman == seq![owner, chairman],
        init_view(owner, chairman, registrar).owner == owner,
        init_view(owner, chairman, registrar).is_chairman(owner),
        init_view(owner, chairman, registrar).is_chairman(chairman),
{
    let s = init_view(owner, chairman, registrar);
    assert(s.committee.chairman[0] == owner);
    assert(s.committee.chairman[1] == chairman);
}

/// A successful delegation makes the moderator a chairman.
pub proof fn lemma_delegate_grants(s: StateView, moderator: ActorId)
    ensures
        delegate_view(s, moderator).is_chairman(moderator),
{
    let c = delegate_view(s, moderator).committee.chairman;
    assert(c[c.len() - 1] == moderator);
}

/// The chairman role, once held, is kept across every subsequent
/// entry-point invocation: no entry point removes a chairman.
pub proof fn lemma_chairman_persists(s: StateView, op: Op, p: ActorId)
    requires
        s.is_chairman(p),
    ensures
        step_view(s, op).is_chairman(p),
{
    match op {
        Op::Delegate { caller, moderator } => {
            if s.is_chairman(caller) {
                let i = choose|i: int|
                    0 <= i < s.committee.chairman.len() && s.committee.chairman[i] == p;
                assert(delegate_view(s, moderator).committee.chairman[i] == p);
            }
        },
        Op::Enroll { .. } => {},
        Op::OpenRoom { .. } => {},
        Op::JoinRoom { .. } => {},
    }
}

/// The chairman role is granted only by a delegation naming the person
/// (performed by a sitting chairman): before such a call, the role
/// check never succeeds for that person.
pub proof fn lemma_chairman_only_by_delegation(s: StateView, op: Op, p: ActorId)
    requires
        !s.is_chairman(p),
        !(op matches Op::Delegate { caller, moderator } && s.is_chairman(caller) && moderator
            == p),
    ensures
        !step_view(s, op).is_chairman(p),
{
    match op {
        Op::Delegate { caller, moderator } => {
            if s.is_chairman(caller) {
                let c2 = delegate_view(s, moderator).committee.chairman;
                assert forall|i: int| 0 <= i < c2.len() implies c2[i] != p by {
                    if i < s.committee.chairman.len() {
                        assert(c2[i] == s.committee.chairman[i]);
                        assert(s.committee.chairman.contains(p) ==> exists|j: int|
                            0 <= j < s.committee.chairman.len() && s.committee.chairman[j] == p);
                    }
                }
                if c2.contains(p) {
                    let i = choose|i: int| 0 <= i < c2.len() && c2[i] == p;
                    assert(false);
                }
            }
        },
        Op::Enroll { .. } => {},
        Op::OpenRoom { .. } => {},
        Op::JoinRoom { .. } => {},
    }
}

/// The owner is always on the chairman roll once initialization has
/// seeded it there: no entry-point invocation removes the owner's role.
pub proof fn lemma_owner_stays_chairman(s: StateView, op: Op)
    requires
        s.is_chairman(s.owner),
    ensures
        step_view(s, op).is_chairman(step_view(s, op).owner),
{
    lemma_owner_fixed(s, op);
    lemma_chairman_persists(s, op, s.owner);
}

/// Population membership is append-only: once enrolled, a person stays
/// enrolled across every entry-point invocation.
pub proof fn lemma_population_append_only(s: StateView, op: Op, p: ActorId)
    requires
        s.is_population(p),
    ensures
        step_view(s, op).is_population(p),
{
    match op {
        Op::Enroll { person } => {
            let i = choose|i: int| 0 <= i < s.population.len() && s.population[i] == p;
            assert(enroll_view(s, person).population[i] == p);
        },
        Op::Delegate { .. } => {},
        Op::OpenRoom { .. } => {},
        Op::JoinRoom { .. } => {},
    }
}

/// Records are never mutated after creation: no entry-point invocation
/// touches the record roll.
pub proof fn lemma_records_untouched(s: StateView, op: Op)
    ensures
        step_view(s, op).records == s.records,
{
}

/// A restore touches only the five durable roots: the owner fixed at
/// initialization and the registrar address survive it unchanged, so
/// the owner guard accepts the same caller across a restart.
pub proof fn lemma_restore_keeps_identities(s: StateView, p: PayloadView)
    ensures
        restore_view(s, p).owner == s.owner,
        restore_view(s, p).registrar == s.registrar,
{
}

/// Round trip of the durability pair: restoring the payload a snapshot
/// captured reproduces the very state the snapshot was taken from —
/// same committee, population, rooms, records and board, and the actor
/// identities untouched.
pub proof fn lemma_snapshot_restore(s: StateView)
    ensures
        restore_view(s, snapshot_view(s)) == s,
{
    assert(restore_view(s, snapshot_view(s)) =~= s);
}

/// A join request naming a room that does not exist changes nothing.
pub proof fn lemma_join_missing_room_is_noop(
    s: StateView,
    caller: ActorId,
    id: Seq<char>,
    ticket: Option<Ticket>,
)
    requires
        room_index(s.rooms, id) == -1,
    ensures
        join_room_view(s, caller, id, ticket) == s,
{
}

/// A join request the admission rule rejects changes nothing: the
/// room's audience stays as it was.
pub proof fn lemma_join_rejected_is_noop(
    s: StateView,
    caller: ActorId,
    id: Seq<char>,
    ticket: Option<Ticket>,
)
    requires
        !ticket_admits(caller, ticket),
    ensures
        join_room_view(s, caller, id, ticket) == s,
{
}

/// A provisioning flow that fails at the installation step reports the
/// failure with the actor the creation step produced, and never
/// attempts the start step.
pub proof fn lemma_install_failure_keeps_created(canister: ActorId, error: CallError)
    ensures
        ({
            let failed = on_install_view(
                ProvisionStatus::AwaitingInstall { canister },
                Err(error),
            );
            &&& failed matches ProvisionStatus::Failed { step, created, error: e }
                && step is Install && created == Some(canister) && e == error
            &&& next_step_view(failed) is None
            &&& created_view(failed) == Some(canister)
        }),
{
}

} // verus!
