//! The session lifecycle machine: phases, the player-count gate, seat
//! assignment and frame counting.

use ribbon_arena::session::{ids_distinct, sort_ids, SessionPhase, SessionState};

#[test]
fn fresh_session_is_disconnected() {
    let s = SessionState::new(77);
    assert_eq!(s.phase, SessionPhase::Disconnected);
    assert_eq!(s.frame_counter, 0);
    assert_eq!(s.local_id, 77);
}

#[test]
fn connect_then_channel_ready_reaches_waiting() {
    let mut s = SessionState::new(77);
    s.connect(true, 2);
    assert_eq!(s.phase, SessionPhase::Connecting);
    assert_eq!(s.seat_count, 2);
    assert_eq!(s.local_seat, 0);
    s.channel_ready();
    assert_eq!(s.phase, SessionPhase::WaitingForPlayers);
}

#[test]
fn waiting_holds_until_enough_peers() {
    let mut s = SessionState::new(77);
    s.connect(true, 3);
    s.channel_ready();
    assert!(!s.waiting_tick(vec![5]));
    assert_eq!(s.phase, SessionPhase::WaitingForPlayers);
    assert_eq!(s.connected_peers, vec![5]);
    assert!(s.waiting_tick(vec![5, 901]));
    assert_eq!(s.phase, SessionPhase::Synchronized);
}

#[test]
fn seats_are_identities_in_ascending_order() {
    let mut s = SessionState::new(50);
    s.connect(false, 3);
    s.channel_ready();
    assert!(s.waiting_tick(vec![900, 7]));
    assert_eq!(s.seats, vec![7, 50, 900]);
    assert_eq!(s.local_seat, 1);
    assert_eq!(s.seats[s.local_seat], 50);
}

#[test]
fn every_peer_derives_the_same_seating() {
    // Three participants, each seeing the other two in a different
    // announcement order, agree on the seat of every identity.
    let ids: [u128; 3] = [31, 4, 250];
    let mut seatings = Vec::new();
    for me in 0..3 {
        let mut s = SessionState::new(ids[me]);
        s.connect(me == 0, 3);
        s.channel_ready();
        let mut others: Vec<u128> =
            (0..3).filter(|k| *k != me).map(|k| ids[k]).collect();
        if me == 1 {
            others.reverse();
        }
        assert!(s.waiting_tick(others));
        seatings.push(s.seats.clone());
    }
    assert_eq!(seatings[0], seatings[1]);
    assert_eq!(seatings[1], seatings[2]);
    assert_eq!(seatings[0], vec![4, 31, 250]);
}

#[test]
fn frame_counter_only_moves_forward() {
    let mut s = SessionState::new(1);
    s.connect(true, 2);
    s.channel_ready();
    assert!(s.waiting_tick(vec![2]));
    assert_eq!(s.frame_counter, 0);
    s.advance_frame();
    s.advance_frame();
    s.advance_frame();
    assert_eq!(s.frame_counter, 3);
}

#[test]
fn terminate_is_absorbing() {
    let mut s = SessionState::new(1);
    s.connect(true, 2);
    s.channel_ready();
    assert!(s.waiting_tick(vec![2]));
    s.terminate();
    assert_eq!(s.phase, SessionPhase::Terminated);
    s.terminate();
    assert_eq!(s.phase, SessionPhase::Terminated);
}

#[test]
fn spawned_players_fill_seats_densely() {
    let mut s = SessionState::new(50);
    s.connect(false, 2);
    s.channel_ready();
    assert!(s.waiting_tick(vec![900, 7]));
    let players = s.spawn_players();
    assert_eq!(players.len(), 3);
    for (i, p) in players.iter().enumerate() {
        assert_eq!(p.network_slot, i);
        assert_eq!(p.id, s.seats[i]);
        assert_eq!(p.is_local, p.id == 50);
        assert!(!p.is_grounded);
        assert!(p.can_jump);
        assert_eq!(p.health, 1);
    }
    assert_eq!(players.iter().filter(|p| p.is_local).count(), 1);
}

#[test]
fn sort_ids_orders_ascending() {
    let sorted = sort_ids(&vec![900, 7, 50, 8]);
    assert_eq!(sorted, vec![7, 8, 50, 900]);
    let empty = sort_ids(&Vec::new());
    assert!(empty.is_empty());
}

#[test]
fn ids_distinct_detects_duplicates() {
    assert!(ids_distinct(&vec![1, 2, 3]));
    assert!(ids_distinct(&Vec::new()));
    assert!(!ids_distinct(&vec![1, 2, 1]));
}
