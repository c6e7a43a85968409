//! One full simulation tick, and replaying stretches of ticks.
//!
//! A tick consumes everything the outside world contributes to one frame —
//! contact events, ray-cast answers, per-seat inputs — and advances the
//! player states: ground resolution first, then the deterministic step.
//! Because a tick is a pure function of state and frame data, re-running
//! past frames from a snapshot (a rollback resimulation) reproduces exactly
//! the states the live run produced.

use vstd::prelude::*;
use crate::config::ArenaConfig;
use crate::ground::{resolve_player_spec, update_ground_detection, ContactEvent};
use crate::player::{FrameInput, PlayerState};
use crate::step::{step, step_spec};

verus! {

/// Everything the outside world contributes to one simulation tick:
/// this tick's contact events, one downward ray-cast answer per seat, and
/// one input per seat.
pub struct FrameData {
    pub events: Vec<ContactEvent>,
    pub ray_hits: Vec<bool>,
    pub inputs: Vec<FrameInput>,
}

/// The mathematical content of a `FrameData`.
pub struct FrameView {
    pub events: Seq<ContactEvent>,
    pub ray_hits: Seq<bool>,
    pub inputs: Seq<FrameInput>,
}

impl View for FrameData {
    type V = FrameView;

    open spec fn view(&self) -> FrameView {
        FrameView { events: self.events@, ray_hits: self.ray_hits@, inputs: self.inputs@ }
    }
}

/// A frame fits a roster of `n` seats: one ray answer and one input each.
pub open spec fn frame_fits(f: FrameView, n: nat) -> bool {
    f.ray_hits.len() == n && f.inputs.len() == n
}

/// One tick: every player's contact state resolved, then the frame step.
pub open spec fn tick_spec(c: ArenaConfig, players: Seq<PlayerState>, f: FrameView) -> Seq<PlayerState> {
    let resolved = Seq::new(
        players.len(),
        |i: int| resolve_player_spec(players[i], f.events, i as usize, f.ray_hits[i]),
    );
    step_spec(c, resolved, f.inputs)
}

/// A stretch of ticks, first frame first.
pub open spec fn simulate_spec(c: ArenaConfig, players: Seq<PlayerState>, frames: Seq<FrameView>) -> Seq<PlayerState>
    decreases frames.len(),
{
    if frames.len() == 0 {
        players
    } else {
        simulate_spec(c, tick_spec(c, players, frames.first()), frames.drop_first())
    }
}

/// The views of a vector of frames.
pub open spec fn frame_views(frames: Seq<FrameData>) -> Seq<FrameView> {
    frames.map_values(|f: FrameData| f@)
}

/// Advance the players by one tick, in place.
pub fn tick(c: &ArenaConfig, players: &mut Vec<PlayerState>, frame: &FrameData)
    requires
        c.wf(),
        forall|i: int| 0 <= i < old(players)@.len() ==> (#[trigger] old(players)@[i]).wf(),
        frame_fits(frame@, old(players)@.len()),
    ensures
        final(players)@ == tick_spec(*c, old(players)@, frame@),
        final(players)@.len() == old(players)@.len(),
        forall|i: int| 0 <= i < final(players)@.len() ==> (#[trigger] final(players)@[i]).wf(),
{
    let ghost entry = players@;
    update_ground_detection(players, &frame.events, &frame.ray_hits);
    proof {
        // Resolution touches only the grounded flags, so well-formedness
        // carries through.
        assert(players@ =~= Seq::new(
            entry.len(),
            |i: int| resolve_player_spec(entry[i], frame@.events, i as usize, frame@.ray_hits[i]),
        ));
    }
    let stepped = step(c, players, &frame.inputs);
    *players = stepped;
}

/// Advance the players through a stretch of frames, in place.
pub fn simulate(c: &ArenaConfig, players: &mut Vec<PlayerState>, frames: &Vec<FrameData>)
    requires
        c.wf(),
        forall|i: int| 0 <= i < old(players)@.len() ==> (#[trigger] old(players)@[i]).wf(),
        forall|k: int| 0 <= k < frames@.len()
            ==> frame_fits((#[trigger] frames@[k])@, old(players)@.len()),
    ensures
        final(players)@ == simulate_spec(*c, old(players)@, frame_views(frames@)),
        final(players)@.len() == old(players)@.len(),
        forall|i: int| 0 <= i < final(players)@.len() ==> (#[trigger] final(players)@[i]).wf(),
{
    let ghost entry = players@;
    let n = frames.len();
    for k in 0..n
        invariant
            n == frames@.len(),
            c.wf(),
            players@.len() == entry.len(),
            forall|i: int| 0 <= i < players@.len() ==> (#[trigger] players@[i]).wf(),
            forall|j: int| 0 <= j < frames@.len()
                ==> frame_fits((#[trigger] frames@[j])@, entry.len()),
            players@ == simulate_spec(*c, entry, frame_views(frames@.take(k as int))),
    {
        proof {
            lemma_simulate_snoc(*c, entry, frame_views(frames@.take(k as int)), frames@[k as int]@);
            assert(frame_views(frames@.take(k as int + 1))
                =~= frame_views(frames@.take(k as int)).push(frames@[k as int]@));
        }
        tick(c, players, &frames[k]);
    }
    proof {
        assert(frames@.take(n as int) =~= frames@);
    }
}

/// Simulating `a` then `b` equals simulating `a + b`.
pub proof fn lemma_simulate_append(
    c: ArenaConfig,
    players: Seq<PlayerState>,
    a: Seq<FrameView>,
    b: Seq<FrameView>,
)
    ensures
        simulate_spec(c, players, a + b) == simulate_spec(c, simulate_spec(c, players, a), b),
    decreases a.len(),
{
    if a.len() == 0 {
        assert(a + b =~= b);
    } else {
        assert((a + b).first() == a.first());
        assert((a + b).drop_first() =~= a.drop_first() + b);
        lemma_simulate_append(c, tick_spec(c, players, a.first()), a.drop_first(), b);
    }
}

/// Appending one frame to a stretch runs that frame's tick last.
pub proof fn lemma_simulate_snoc(
    c: ArenaConfig,
    players: Seq<PlayerState>,
    frames: Seq<FrameView>,
    f: FrameView,
)
    ensures
        simulate_spec(c, players, frames.push(f))
            == tick_spec(c, simulate_spec(c, players, frames), f),
{
    assert(frames.push(f) =~= frames + seq![f]);
    lemma_simulate_append(c, players, frames, seq![f]);
    let mid = simulate_spec(c, players, frames);
    assert(seq![f].first() == f);
    assert(seq![f].drop_first() =~= Seq::<FrameView>::empty());
    assert(simulate_spec(c, tick_spec(c, mid, f), Seq::<FrameView>::empty())
        == tick_spec(c, mid, f));
    assert(simulate_spec(c, mid, seq![f]) == tick_spec(c, mid, f));
}

/// Rollback equivalence: simulating every frame from the initial state
/// equals taking a snapshot after the first `k` frames and resimulating the
/// rest from the snapshot, for every split point `k`.
pub proof fn lemma_rollback_equivalence(
    c: ArenaConfig,
    players: Seq<PlayerState>,
    frames: Seq<FrameView>,
    k: int,
)
    requires
        0 <= k <= frames.len(),
    ensures
        simulate_spec(c, players, frames)
            == simulate_spec(c, simulate_spec(c, players, frames.take(k)), frames.skip(k)),
{
    assert(frames =~= frames.take(k) + frames.skip(k));
    lemma_simulate_append(c, players, frames.take(k), frames.skip(k));
}

} // verus!
