//! The session lifecycle state machine.
//!
//! `Disconnected -> Connecting -> WaitingForPlayers -> Synchronized ->
//! Terminated`. The machine gates when the frame step may run: only a
//! `Synchronized` session ticks, with one seat per participant. Seats are
//! assigned by sorting all participant identities into ascending order, so
//! every peer derives the identical seating from the identical roster; the
//! seat index then addresses the per-frame input array on every machine.
//! `Terminated` is absorbing — a new attempt starts from a fresh state.

use vstd::prelude::*;
use vstd::pervasive::unreached;
use crate::player::PlayerState;

verus! {

/// Where a session stands in its life.
#[derive(Clone, Copy, Debug, PartialEq, Eq, Structural)]
pub enum SessionPhase {
    Disconnected,
    Connecting,
    WaitingForPlayers,
    Synchronized,
    Terminated,
}

/// Ascending order, duplicates allowed.
pub open spec fn sorted_le(s: Seq<u128>) -> bool {
    forall|i: int, j: int| 0 <= i < j < s.len() ==> s[i] <= s[j]
}

/// Strictly ascending order.
pub open spec fn sorted_strict(s: Seq<u128>) -> bool {
    forall|i: int, j: int| 0 <= i < j < s.len() ==> s[i] < s[j]
}

/// One process's view of a session.
///
/// `seat_count` is the number of participants the session is waiting for,
/// fixed from the connection attempt on. `connected_peers` is what the
/// transport last reported. `seats` maps seat index to participant
/// identity once the session synchronizes. `frame_counter` counts confirmed
/// ticks and never moves backwards, even while a rollback re-executes past
/// frames.
pub struct SessionState {
    pub phase: SessionPhase,
    pub local_id: u128,
    pub seat_count: usize,
    pub local_seat: usize,
    pub connected_peers: Vec<u128>,
    pub seats: Vec<u128>,
    pub frame_counter: u64,
}

impl SessionState {
    /// The seating a synchronized session must carry: every participant
    /// (the local one and each connected peer) exactly once, in strictly
    /// ascending identity order, with the local seat pointing at the local
    /// identity.
    pub open spec fn seats_wf(self) -> bool {
        &&& sorted_strict(self.seats@)
        &&& self.local_seat < self.seats@.len()
        &&& self.seats@[self.local_seat as int] == self.local_id
        &&& self.seats@.to_multiset() == self.connected_peers@.push(self.local_id).to_multiset()
        &&& self.seats@.len() == self.connected_peers@.len() + 1
    }

    /// The machine's invariant, by phase.
    pub open spec fn wf(self) -> bool {
        match self.phase {
            SessionPhase::Disconnected => true,
            SessionPhase::Connecting => 2 <= self.seat_count <= 4,
            SessionPhase::WaitingForPlayers => 2 <= self.seat_count <= 4,
            SessionPhase::Synchronized => {
                &&& 2 <= self.seat_count <= 4
                &&& self.seats_wf()
                &&& self.seats@.len() >= self.seat_count
            },
            SessionPhase::Terminated => true,
        }
    }

    /// A fresh, disconnected session for the given local identity.
    pub fn new(local_id: u128) -> (s: SessionState)
        ensures
            s.wf(),
            s.phase == SessionPhase::Disconnected,
            s.local_id == local_id,
            s.frame_counter == 0,
            s.connected_peers@.len() == 0,
            s.seats@.len() == 0,
    {
        SessionState {
            phase: SessionPhase::Disconnected,
            local_id,
            seat_count: 0,
            local_seat: 0,
            connected_peers: Vec::new(),
            seats: Vec::new(),
            frame_counter: 0,
        }
    }

    /// A create or join request: the session starts connecting and fixes
    /// how many participants it will wait for. The host provisionally takes
    /// seat 0; everyone's seat is settled at synchronization.
    pub fn connect(&mut self, is_host: bool, seat_count: usize)
        requires
            old(self).phase == SessionPhase::Disconnected,
            old(self).wf(),
            2 <= seat_count <= 4,
        ensures
            final(self).wf(),
            final(self).phase == SessionPhase::Connecting,
            final(self).seat_count == seat_count,
            final(self).local_id == old(self).local_id,
            final(self).frame_counter == old(self).frame_counter,
            is_host ==> final(self).local_seat == 0,
    {
        self.phase = SessionPhase::Connecting;
        self.seat_count = seat_count;
        if is_host {
            self.local_seat = 0;
        }
    }

    /// The transport reports a usable channel: start waiting for peers.
    pub fn channel_ready(&mut self)
        requires
            old(self).phase == SessionPhase::Connecting,
            old(self).wf(),
        ensures
            final(self).wf(),
            *final(self) == (SessionState { phase: SessionPhase::WaitingForPlayers, ..*old(self) }),
    {
        self.phase = SessionPhase::WaitingForPlayers;
    }

    /// One waiting-room poll: adopt the freshly reported peer roster, and
    /// synchronize once enough participants are present (the local seat
    /// accounts for the `+ 1`). On synchronization every participant gets a
    /// seat: identities sorted ascending, seat = rank, the same on every
    /// machine that sees the same roster.
    pub fn waiting_tick(&mut self, peers: Vec<u128>) -> (started: bool)
        requires
            old(self).phase == SessionPhase::WaitingForPlayers,
            old(self).wf(),
            peers@.push(old(self).local_id).no_duplicates(),
        ensures
            final(self).wf(),
            final(self).local_id == old(self).local_id,
            final(self).seat_count == old(self).seat_count,
            final(self).frame_counter == old(self).frame_counter,
            final(self).connected_peers@ == peers@,
            started == (peers@.len() + 1 >= old(self).seat_count),
            started ==> final(self).phase == SessionPhase::Synchronized && final(self).seats_wf(),
            !started ==> final(self).phase == SessionPhase::WaitingForPlayers
                && final(self).seats@ == old(self).seats@,
    {
        self.connected_peers = peers;
        // seat_count >= 2 in this phase, so the subtraction stays in range.
        let needed_peers = self.seat_count - 1;
        if self.connected_peers.len() >= needed_peers {
            let mut all: Vec<u128> = self.connected_peers.clone();
            all.push(self.local_id);
            proof {
                assert(all@ =~= self.connected_peers@.push(self.local_id));
            }
            let sorted = sort_ids(&all);
            proof {
                all@.lemma_multiset_has_no_duplicates();
                sorted@.lemma_multiset_has_no_duplicates_conv();
                lemma_sorted_distinct_is_strict(sorted@);
                assert(all@.to_multiset().contains(self.local_id)) by {
                    broadcast use vstd::seq_lib::group_to_multiset_ensures;

                    assert(all@[all@.len() - 1] == self.local_id);
                    assert(all@.contains(self.local_id));
                }
                assert(sorted@.contains(self.local_id)) by {
                    broadcast use vstd::seq_lib::group_to_multiset_ensures;
                };
                assert(sorted@.len() == all@.len()) by {
                    broadcast use vstd::seq_lib::group_to_multiset_ensures;

                    assert(sorted@.to_multiset().len() == all@.to_multiset().len());
                };
            }
            let seat = index_of_id(&sorted, self.local_id);
            self.seats = sorted;
            self.local_seat = seat;
            self.phase = SessionPhase::Synchronized;
            true
        } else {
            false
        }
    }

    /// One confirmed simulation tick: the counter moves forward, and only
    /// forward.
    pub fn advance_frame(&mut self)
        requires
            old(self).phase == SessionPhase::Synchronized,
            old(self).wf(),
            old(self).frame_counter < u64::MAX,
        ensures
            final(self).wf(),
            *final(self) == (SessionState { frame_counter: (old(self).frame_counter + 1) as u64, ..*old(self) }),
    {
        self.frame_counter = self.frame_counter + 1;
    }

    /// An explicit leave, or a fatal desync: the session ends. Terminated
    /// is absorbing; reconnecting means a fresh `SessionState`.
    pub fn terminate(&mut self)
        requires
            old(self).phase == SessionPhase::Synchronized
                || old(self).phase == SessionPhase::Terminated,
            old(self).wf(),
        ensures
            final(self).wf(),
            *final(self) == (SessionState { phase: SessionPhase::Terminated, ..*old(self) }),
    {
        self.phase = SessionPhase::Terminated;
    }

    /// One avatar per seat, local or remote by identity, airborne at the
    /// spawn point.
    pub fn spawn_players(&self) -> (ps: Vec<PlayerState>)
        requires
            self.phase == SessionPhase::Synchronized,
            self.wf(),
        ensures
            ps@.len() == self.seats@.len(),
            forall|i: int| 0 <= i < ps@.len()
                ==> #[trigger] ps@[i] == PlayerState::new_spec(
                    self.seats@[i],
                    i as usize,
                    self.seats@[i] == self.local_id,
                ),
            forall|i: int| 0 <= i < ps@.len() ==> (#[trigger] ps@[i]).wf(),
    {
        let mut ps: Vec<PlayerState> = Vec::new();
        let n = self.seats.len();
        for k in 0..n
            invariant
                n == self.seats@.len(),
                ps@.len() == k,
                forall|i: int| 0 <= i < k
                    ==> #[trigger] ps@[i] == PlayerState::new_spec(
                        self.seats@[i],
                        i as usize,
                        self.seats@[i] == self.local_id,
                    ),
                forall|i: int| 0 <= i < k ==> (#[trigger] ps@[i]).wf(),
        {
            let id = self.seats[k];
            let p = PlayerState::new(id, k, id == self.local_id);
            ps.push(p);
        }
        ps
    }
}

/// Whether a reported roster holds any identity twice.
pub fn ids_distinct(ids: &Vec<u128>) -> (b: bool)
    ensures
        b == ids@.no_duplicates(),
{
    let n = ids.len();
    for i in 0..n
        invariant
            n == ids@.len(),
            forall|p: int, q: int| 0 <= p < q < n && p < i ==> ids@[p] != ids@[q],
    {
        for j in (i + 1)..n
            invariant
                n == ids@.len(),
                i < n,
                forall|p: int, q: int| 0 <= p < q < n && p < i ==> ids@[p] != ids@[q],
                forall|q: int| i < q < j ==> ids@[i as int] != ids@[q],
        {
            if ids[i] == ids[j] {
                return false;
            }
        }
    }
    true
}

/// The identities in ascending order; the canonical seating.
pub fn sort_ids(ids: &Vec<u128>) -> (r: Vec<u128>)
    ensures
        sorted_le(r@),
        r@.to_multiset() == ids@.to_multiset(),
{
    let mut out: Vec<u128> = Vec::new();
    let n = ids.len();
    proof {
        assert(ids@.take(0) =~= Seq::<u128>::empty());
        vstd::seq_lib::lemma_multiset_commutative(Seq::<u128>::empty(), Seq::<u128>::empty());
        assert(out@.to_multiset() =~= ids@.take(0).to_multiset());
    }
    for k in 0..n
        invariant
            n == ids@.len(),
            sorted_le(out@),
            out@.to_multiset() == ids@.take(k as int).to_multiset(),
            out@.len() == k,
    {
        let x = ids[k];
        let mut pos: usize = 0;
        while pos < out.len() && out[pos] <= x
            invariant
                pos <= out@.len(),
                sorted_le(out@),
                forall|i: int| 0 <= i < pos ==> out@[i] <= x,
            decreases out@.len() - pos,
        {
            pos = pos + 1;
        }
        let ghost before = out@;
        out.insert(pos, x);
        proof {
            before.insert_ensures(pos as int, x);
            assert forall|i: int, j: int| 0 <= i < j < out@.len() implies out@[i] <= out@[j] by {
                if j < pos {
                    assert(out@[i] == before[i] && out@[j] == before[j]);
                } else if i > pos {
                    assert(out@[i] == before[i - 1] && out@[j] == before[j - 1]);
                } else if i < pos && j == pos {
                    assert(out@[i] == before[i] && out@[j] == x);
                } else if i == pos && j > pos {
                    assert(out@[i] == x && out@[j] == before[j - 1]);
                    assert(before[pos as int] <= before[j - 1]);
                } else if i < pos && j > pos {
                    assert(out@[i] == before[i] && out@[j] == before[j - 1]);
                    assert(before[pos as int] <= before[j - 1]);
                }
            }
            vstd::seq_lib::to_multiset_insert(before, pos as int, x);
            assert(ids@.take(k as int + 1) =~= ids@.take(k as int).push(x));
            vstd::seq_lib::to_multiset_build(ids@.take(k as int), x);
        }
    }
    proof {
        assert(ids@.take(n as int) =~= ids@);
    }
    out
}

/// Seat agreement: a strictly ascending sequence is determined by the
/// collection of identities it holds, so every participant that sees the
/// same roster derives the identical seating.
pub proof fn lemma_canonical_seating(a: Seq<u128>, b: Seq<u128>)
    requires
        sorted_strict(a),
        sorted_strict(b),
        a.to_multiset() == b.to_multiset(),
    ensures
        a == b,
    decreases a.len(),
{
    broadcast use vstd::seq_lib::group_to_multiset_ensures;

    assert(a.len() == a.to_multiset().len());
    assert(b.len() == b.to_multiset().len());
    if a.len() == 0 {
        assert(a =~= b);
    } else {
        let la = a.last();
        let lb = b.last();
        // Each sequence's last element is present in the shared collection,
        // and bounds everything in the other sequence from above.
        assert(a.contains(la));
        assert(b.contains(lb));
        assert(b.to_multiset().count(la) > 0);
        assert(b.contains(la));
        let i = choose|i: int| 0 <= i < b.len() && b[i] == la;
        if i < b.len() - 1 {
            assert(b[i] < b[b.len() - 1]);
        }
        assert(a.to_multiset().count(lb) > 0);
        assert(a.contains(lb));
        let j = choose|j: int| 0 <= j < a.len() && a[j] == lb;
        if j < a.len() - 1 {
            assert(a[j] < a[a.len() - 1]);
        }
        assert(la == lb);
        // Peel the shared maximum and recurse.
        assert(a.remove(a.len() - 1).to_multiset() == a.to_multiset().remove(la));
        assert(b.remove(b.len() - 1).to_multiset() == b.to_multiset().remove(lb));
        assert(a.remove(a.len() - 1) =~= a.drop_last());
        assert(b.remove(b.len() - 1) =~= b.drop_last());
        assert(sorted_strict(a.drop_last()));
        assert(sorted_strict(b.drop_last()));
        lemma_canonical_seating(a.drop_last(), b.drop_last());
        assert(a =~= a.drop_last().push(la));
        assert(b =~= b.drop_last().push(lb));
    }
}

/// An ascending order without duplicates is strictly ascending.
proof fn lemma_sorted_distinct_is_strict(s: Seq<u128>)
    requires
        sorted_le(s),
        s.no_duplicates(),
    ensures
        sorted_strict(s),
{
}

/// The seat of an identity known to be present.
fn index_of_id(ids: &Vec<u128>, id: u128) -> (r: usize)
    requires
        ids@.contains(id),
    ensures
        r < ids@.len(),
        ids@[r as int] == id,
{
    let n = ids.len();
    for i in 0..n
        invariant
            n == ids@.len(),
            ids@.contains(id),
            forall|k: int| 0 <= k < i ==> ids@[k] != id,
    {
        if ids[i] == id {
            return i;
        }
    }
    proof {
        let k = choose|k: int| 0 <= k < ids@.len() && ids@[k] == id;
        assert(false);
    }
    unreached()
}

} // verus!
