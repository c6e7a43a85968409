//! Session-wide bookkeeping the surrounding application reads and shows:
//! the coarse application mode, connection status, and per-player tallies.

use vstd::prelude::*;
use std::collections::HashMap;

verus! {

/// The coarse mode the application is in.
#[derive(Clone, Copy, Debug, PartialEq, Eq, Structural)]
pub enum CurrentGameState {
    SinglePlayer,
    Lobby,
    InGame,
    GameOver,
}

impl Default for CurrentGameState {
    fn default() -> (r: CurrentGameState)
        ensures
            r == CurrentGameState::SinglePlayer,
    {
        CurrentGameState::SinglePlayer
    }
}

/// The application mode, as one shared value.
pub struct GameState {
    pub current_state: CurrentGameState,
}

impl Default for GameState {
    fn default() -> (r: GameState)
        ensures
            r.current_state == CurrentGameState::SinglePlayer,
    {
        GameState { current_state: CurrentGameState::SinglePlayer }
    }
}

/// Connection and matchmaking status, as the UI shows it.
pub struct ConnectionInfo {
    pub room_url: String,
    pub room_id: String,
    pub is_connecting: bool,
    pub connection_error: Option<String>,
}

impl Default for ConnectionInfo {
    fn default() -> (r: ConnectionInfo)
        ensures
            r.room_url@.len() == 0,
            r.room_id@.len() == 0,
            !r.is_connecting,
            r.connection_error is None,
    {
        ConnectionInfo {
            room_url: String::new(),
            room_id: String::new(),
            is_connecting: false,
            connection_error: None,
        }
    }
}

/// Per-player tallies, keyed by the player's numeric identity.
pub struct GameStats {
    pub kills: HashMap<u32, u32>,
    pub deaths: HashMap<u32, u32>,
    pub advancements: HashMap<u32, u32>,
}

impl Default for GameStats {
    fn default() -> (r: GameStats)
        ensures
            r.kills@ == Map::<u32, u32>::empty(),
            r.deaths@ == Map::<u32, u32>::empty(),
            r.advancements@ == Map::<u32, u32>::empty(),
    {
        GameStats { kills: HashMap::new(), deaths: HashMap::new(), advancements: HashMap::new() }
    }
}

} // verus!
