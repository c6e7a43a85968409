//! The ground-contact resolver: contact events plus a downward ray-cast
//! answer decide each player's grounded flag for the tick.
//!
//! Contact-begin events ground a player outright. A contact-end event does
//! not clear the flag by itself: the physics collaborator is asked whether
//! solid geometry lies within a short distance straight below the player,
//! and the answer latches the flag. Begin events are processed before end
//! events, in arrival order, so leaving one surface while already touching
//! another never clears a live contact.
//!
//! The resolver runs to completion before the frame step of the same tick,
//! since jump eligibility depends on it.

use vstd::prelude::*;
use crate::player::PlayerState;

verus! {

/// One side of a collision event, as the physics collaborator reports it.
#[derive(Clone, Copy, Debug, PartialEq, Eq, Structural)]
pub enum BodyRef {
    /// The avatar seated at the given index.
    Player { seat: usize },
    /// Geometry tagged as eligible to satisfy ground contact.
    Groundable,
    /// Any other body.
    Other,
}

/// Whether a contact began or ended this tick.
#[derive(Clone, Copy, Debug, PartialEq, Eq, Structural)]
pub enum ContactPhase {
    Started,
    Ended,
}

/// One collision event between two bodies.
#[derive(Clone, Copy, Debug, PartialEq, Eq, Structural)]
pub struct ContactEvent {
    pub phase: ContactPhase,
    pub body_a: BodyRef,
    pub body_b: BodyRef,
}

/// The seat whose ground contact an event speaks of: a player on one side
/// and groundable geometry on the other, in either order.
pub open spec fn ground_contact_seat(e: ContactEvent) -> Option<usize> {
    match (e.body_a, e.body_b) {
        (BodyRef::Player { seat }, BodyRef::Groundable) => Some(seat),
        (BodyRef::Groundable, BodyRef::Player { seat }) => Some(seat),
        _ => None,
    }
}

/// Whether an event is a ground contact of the given phase for the seat.
pub open spec fn contact_matches(e: ContactEvent, seat: usize, phase: ContactPhase) -> bool {
    e.phase == phase && ground_contact_seat(e) == Some(seat)
}

/// Whether the tick's events hold a ground contact of the given phase for
/// the seat.
pub open spec fn has_contact(events: Seq<ContactEvent>, seat: usize, phase: ContactPhase) -> bool {
    exists|i: int| 0 <= i < events.len() && contact_matches(events[i], seat, phase)
}

/// What one tick of contact events leaves of a player's grounded state.
///
/// An end event latches the flags to the ray-cast answer; otherwise a begin
/// event grounds the player and refreshes jump eligibility; otherwise the
/// state is untouched.
pub open spec fn resolve_player_spec(
    p: PlayerState,
    events: Seq<ContactEvent>,
    seat: usize,
    ray_hit: bool,
) -> PlayerState {
    if has_contact(events, seat, ContactPhase::Ended) {
        PlayerState { is_grounded: ray_hit, can_jump: ray_hit, ..p }
    } else if has_contact(events, seat, ContactPhase::Started) {
        PlayerState { is_grounded: true, can_jump: true, ..p }
    } else {
        p
    }
}

/// The grounded state after only the begin events have been processed.
pub open spec fn begin_phase_spec(p: PlayerState, events: Seq<ContactEvent>, seat: usize) -> PlayerState {
    if has_contact(events, seat, ContactPhase::Started) {
        PlayerState { is_grounded: true, can_jump: true, ..p }
    } else {
        p
    }
}

/// The grounded state after all begin events and the first `k` end events.
pub open spec fn end_phase_spec(
    p: PlayerState,
    events: Seq<ContactEvent>,
    k: int,
    seat: usize,
    ray_hit: bool,
) -> PlayerState {
    if has_contact(events.take(k), seat, ContactPhase::Ended) {
        PlayerState { is_grounded: ray_hit, can_jump: ray_hit, ..p }
    } else {
        begin_phase_spec(p, events, seat)
    }
}

/// Appending one event extends the contacts a tick holds by exactly that
/// event's own contact.
proof fn lemma_has_contact_push(events: Seq<ContactEvent>, e: ContactEvent, seat: usize, phase: ContactPhase)
    ensures
        has_contact(events.push(e), seat, phase)
            <==> (has_contact(events, seat, phase) || contact_matches(e, seat, phase)),
{
    if has_contact(events, seat, phase) {
        let i = choose|i: int| 0 <= i < events.len() && contact_matches(events[i], seat, phase);
        assert(events.push(e)[i] == events[i]);
    }
    if contact_matches(e, seat, phase) {
        assert(events.push(e)[events.len() as int] == e);
    }
    if has_contact(events.push(e), seat, phase) && !contact_matches(e, seat, phase) {
        let i = choose|i: int|
            0 <= i < events.push(e).len() && contact_matches(events.push(e)[i], seat, phase);
        if i < events.len() {
            assert(events.push(e)[i] == events[i]);
        }
    }
}

/// The event's ground-contact seat, executable.
fn ground_contact_seat_exec(e: &ContactEvent) -> (r: Option<usize>)
    ensures
        r == ground_contact_seat(*e),
{
    match (e.body_a, e.body_b) {
        (BodyRef::Player { seat }, BodyRef::Groundable) => Some(seat),
        (BodyRef::Groundable, BodyRef::Player { seat }) => Some(seat),
        _ => None,
    }
}

/// Resolve every player's grounded flag from this tick's contact events.
///
/// `ray_hits[s]` answers, for the player in seat `s`, whether a downward
/// ray from the player's current position hits solid geometry within the
/// contact-verification distance; the physics collaborator computes it
/// before the tick. Events naming seats outside the roster are ignored.
pub fn update_ground_detection(
    players: &mut Vec<PlayerState>,
    events: &Vec<ContactEvent>,
    ray_hits: &Vec<bool>,
)
    requires
        old(players)@.len() == ray_hits@.len(),
    ensures
        final(players)@.len() == old(players)@.len(),
        forall|i: int| 0 <= i < old(players)@.len()
            ==> #[trigger] final(players)@[i]
                == resolve_player_spec(old(players)@[i], events@, i as usize, ray_hits@[i]),
{
    let ghost orig = players@;
    let n = events.len();

    // Begin events first: re-entering ground always refreshes eligibility.
    for j in 0..n
        invariant
            n == events@.len(),
            players@.len() == orig.len(),
            ray_hits@.len() == orig.len(),
            forall|i: int| 0 <= i < orig.len()
                ==> #[trigger] players@[i] == begin_phase_spec(orig[i], events@.take(j as int), i as usize),
    {
        let ghost evs = events@.take(j as int);
        let ghost e = events@[j as int];
        let ev = events[j];
        if matches!(ev.phase, ContactPhase::Started) {
            if let Some(s) = ground_contact_seat_exec(&ev) {
                if s < players.len() {
                    let mut cur = players[s];
                    cur.is_grounded = true;
                    cur.can_jump = true;
                    players.set(s, cur);
                }
            }
        }
        proof {
            assert(events@.take(j as int + 1) =~= evs.push(e));
            assert forall|i: int| 0 <= i < orig.len() implies
                players@[i] == begin_phase_spec(orig[i], events@.take(j as int + 1), i as usize) by {
                lemma_has_contact_push(evs, e, i as usize, ContactPhase::Started);
            }
        }
    }

    proof {
        assert(events@.take(n as int) =~= events@);
    }

    // End events second, in arrival order: the ray answer latches the flag.
    for j in 0..n
        invariant
            n == events@.len(),
            players@.len() == orig.len(),
            ray_hits@.len() == orig.len(),
            forall|i: int| 0 <= i < orig.len()
                ==> #[trigger] players@[i]
                    == end_phase_spec(orig[i], events@, j as int, i as usize, ray_hits@[i]),
    {
        let ghost evs = events@.take(j as int);
        let ghost e = events@[j as int];
        let ev = events[j];
        if matches!(ev.phase, ContactPhase::Ended) {
            if let Some(s) = ground_contact_seat_exec(&ev) {
                if s < players.len() {
                    let hit = ray_hits[s];
                    let mut cur = players[s];
                    cur.is_grounded = hit;
                    cur.can_jump = hit;
                    players.set(s, cur);
                }
            }
        }
        proof {
            assert(events@.take(j as int + 1) =~= evs.push(e));
            assert forall|i: int| 0 <= i < orig.len() implies
                players@[i] == end_phase_spec(orig[i], events@, j as int + 1, i as usize, ray_hits@[i]) by {
                lemma_has_contact_push(evs, e, i as usize, ContactPhase::Ended);
            }
        }
    }

    proof {
        assert(events@.take(n as int) =~= events@);
    }
}

/// Ground contact latching: after a contact-end event, the grounded flag
/// equals the ray-cast answer, whatever else happened this tick; with no
/// end event, a begin event grounds the player; with neither, the state is
/// untouched.
pub proof fn lemma_ground_contact_latching(
    p: PlayerState,
    events: Seq<ContactEvent>,
    seat: usize,
    ray_hit: bool,
)
    ensures
        has_contact(events, seat, ContactPhase::Ended)
            ==> resolve_player_spec(p, events, seat, ray_hit).is_grounded == ray_hit
                && resolve_player_spec(p, events, seat, ray_hit).can_jump == ray_hit,
        !has_contact(events, seat, ContactPhase::Ended)
            && has_contact(events, seat, ContactPhase::Started)
            ==> resolve_player_spec(p, events, seat, ray_hit).is_grounded
                && resolve_player_spec(p, events, seat, ray_hit).can_jump,
        !has_contact(events, seat, ContactPhase::Ended)
            && !has_contact(events, seat, ContactPhase::Started)
            ==> resolve_player_spec(p, events, seat, ray_hit) == p,
{
}

} // verus!
