//! The lobby roster and its readiness gate.
//!
//! A lobby holds an ordered roster of players (join order; index 0 is the
//! host by convention), a capacity, and a chat log. The session may start
//! only when at least two players are present and every one of them is
//! ready; growing past the capacity, or shrinking the capacity under the
//! roster, is rejected rather than truncated. Removing an absent seat is a
//! no-op, since a kick may race with the player having already left.

use vstd::prelude::*;
use vstd::string::StrSliceExecFns;
use vstd::string::StringExecFns;
use crate::entropy::{fresh_player_id, random_below, random_flag};
use crate::text::{trim_spec, trim_string};

verus! {

/// Who said a chat line: a player, the system, or an informational notice.
#[derive(Clone, Copy, Debug, PartialEq, Eq, Structural)]
pub enum ChatMessageType {
    Player,
    System,
    Info,
}

/// One chat line.
#[derive(Debug)]
pub struct ChatMessage {
    pub sender: String,
    pub message: String,
    pub message_type: ChatMessageType,
}

/// One roster entry.
#[derive(Debug)]
pub struct LobbyPlayer {
    pub id: u128,
    pub name: String,
    pub is_ready: bool,
    pub network_handle: u32,
    pub is_local: bool,
}

impl Clone for LobbyPlayer {
    /// A field-for-field copy.
    fn clone(&self) -> (r: LobbyPlayer)
        ensures
            r.id == self.id,
            r.name@ == self.name@,
            r.is_ready == self.is_ready,
            r.network_handle == self.network_handle,
            r.is_local == self.is_local,
    {
        LobbyPlayer {
            id: self.id,
            name: self.name.clone(),
            is_ready: self.is_ready,
            network_handle: self.network_handle,
            is_local: self.is_local,
        }
    }
}

/// Every roster entry is ready.
pub open spec fn all_ready(players: Seq<LobbyPlayer>) -> bool {
    forall|i: int| 0 <= i < players.len() ==> (#[trigger] players[i]).is_ready
}

/// The readiness gate: at least two players, all of them ready.
pub open spec fn can_start_spec(players: Seq<LobbyPlayer>) -> bool {
    players.len() >= 2 && all_ready(players)
}

/// Some roster entry is the local player.
pub open spec fn has_local(players: Seq<LobbyPlayer>) -> bool {
    exists|i: int| 0 <= i < players.len() && (#[trigger] players[i]).is_local
}

/// The characters a room code is drawn from.
pub open spec fn room_code_alphabet() -> Seq<char> {
    "ABCDEFGHIJKLMNOPQRSTUVWXYZ0123456789"@
}

/// The base name a bot joining as entry `n` gets.
pub open spec fn bot_base_name(n: int) -> Seq<char> {
    let r = n % 7;
    if r == 0 {
        "Archer"@
    } else if r == 1 {
        "Hunter"@
    } else if r == 2 {
        "Ranger"@
    } else if r == 3 {
        "Scout"@
    } else if r == 4 {
        "Sniper"@
    } else if r == 5 {
        "Robin"@
    } else {
        "Legolas"@
    }
}

/// Why a lobby operation was rejected.
#[derive(Clone, Copy, Debug, PartialEq, Eq, Structural)]
pub enum LobbyError {
    /// The roster would exceed, or already exceeds, the capacity.
    CapacityExceeded,
    /// The named seat does not exist.
    NoSuchSeat,
}

/// The lobby: roster, capacity, room code and chat.
pub struct LobbyState {
    pub room_id: Option<String>,
    pub max_players: usize,
    pub is_host: bool,
    pub players: Vec<LobbyPlayer>,
    pub game_started: bool,
    pub local_player_name: String,
    pub chat_messages: Vec<ChatMessage>,
    pub current_chat_input: String,
}

impl LobbyState {
    /// The roster never exceeds the capacity, and the capacity never
    /// exceeds four seats.
    pub open spec fn wf(self) -> bool {
        self.players@.len() <= self.max_players <= 4
    }

    /// An empty lobby, not yet hosting or joined into any room.
    pub fn new() -> (s: LobbyState)
        ensures
            s.wf(),
            s.room_id is None,
            s.max_players == 0,
            !s.is_host,
            s.players@.len() == 0,
            !s.game_started,
            s.local_player_name@.len() == 0,
            s.chat_messages@.len() == 0,
            s.current_chat_input@.len() == 0,
    {
        LobbyState {
            room_id: None,
            max_players: 0,
            is_host: false,
            players: Vec::new(),
            game_started: false,
            local_player_name: String::new(),
            chat_messages: Vec::new(),
            current_chat_input: String::new(),
        }
    }

    /// Whether the session may start: two or more players, all ready.
    pub fn can_start(&self) -> (b: bool)
        ensures
            b == can_start_spec(self.players@),
    {
        if self.players.len() < 2 {
            return false;
        }
        all_players_ready(&self.players)
    }

    /// Append a system line to the chat.
    pub fn add_system_message(&mut self, text: &str)
        ensures
            final(self).chat_messages@.len() == old(self).chat_messages@.len() + 1,
            final(self).chat_messages@.drop_last() == old(self).chat_messages@,
            final(self).chat_messages@.last().sender@ == "System"@,
            final(self).chat_messages@.last().message@ == text@,
            final(self).chat_messages@.last().message_type == ChatMessageType::System,
            *final(self) == (LobbyState { chat_messages: final(self).chat_messages, ..*old(self) }),
    {
        let msg = ChatMessage {
            sender: "System".to_owned(),
            message: text.to_owned(),
            message_type: ChatMessageType::System,
        };
        self.chat_messages.push(msg);
        proof {
            assert(self.chat_messages@.drop_last() =~= old(self).chat_messages@);
        }
    }

    /// Seat a new player, unless the lobby is full.
    pub fn add_player(&mut self, player: LobbyPlayer) -> (r: Result<(), LobbyError>)
        requires
            old(self).wf(),
        ensures
            final(self).wf(),
            r is Ok <==> old(self).players@.len() < old(self).max_players,
            r is Ok ==> final(self).players@ == old(self).players@.push(player),
            r is Err ==> *final(self) == *old(self)
                && r == Err::<(), LobbyError>(LobbyError::CapacityExceeded),
            *final(self) == (LobbyState { players: final(self).players, ..*old(self) }),
    {
        if self.players.len() < self.max_players {
            self.players.push(player);
            Ok(())
        } else {
            Err(LobbyError::CapacityExceeded)
        }
    }

    /// Unseat the player at `seat`; removing an absent seat is a no-op, not
    /// an error, since a kick may race with the player leaving on their own.
    pub fn remove_player(&mut self, seat: usize)
        requires
            old(self).wf(),
        ensures
            final(self).wf(),
            seat < old(self).players@.len()
                ==> final(self).players@ == old(self).players@.remove(seat as int),
            seat >= old(self).players@.len() ==> final(self).players@ == old(self).players@,
            *final(self) == (LobbyState { players: final(self).players, ..*old(self) }),
    {
        if seat < self.players.len() {
            let _removed = self.players.remove(seat);
        }
    }

    /// Set one seat's readiness; the seat must exist.
    pub fn set_ready(&mut self, seat: usize, ready: bool) -> (r: Result<(), LobbyError>)
        requires
            old(self).wf(),
        ensures
            final(self).wf(),
            r is Ok <==> seat < old(self).players@.len(),
            r is Ok ==> final(self).players@ == old(self).players@.update(
                seat as int,
                (LobbyPlayer { is_ready: ready, ..old(self).players@[seat as int] }),
            ),
            r is Err ==> *final(self) == *old(self)
                && r == Err::<(), LobbyError>(LobbyError::NoSuchSeat),
            *final(self) == (LobbyState { players: final(self).players, ..*old(self) }),
    {
        if seat < self.players.len() {
            let p = self.players.remove(seat);
            self.players.insert(seat, LobbyPlayer { is_ready: ready, ..p });
            proof {
                assert(self.players@ =~= old(self).players@.update(
                    seat as int,
                    (LobbyPlayer { is_ready: ready, ..old(self).players@[seat as int] }),
                ));
            }
            Ok(())
        } else {
            Err(LobbyError::NoSuchSeat)
        }
    }

    /// Flip the local player's readiness and announce it in the chat; with
    /// no local player seated, nothing happens.
    pub fn toggle_ready_status(&mut self)
        requires
            old(self).wf(),
        ensures
            final(self).wf(),
            !has_local(old(self).players@) ==> *final(self) == *old(self),
            has_local(old(self).players@) ==> exists|i: int|
                #![auto]
                {
                    &&& 0 <= i < old(self).players@.len()
                    &&& old(self).players@[i].is_local
                    &&& forall|k: int| 0 <= k < i ==> !old(self).players@[k].is_local
                    &&& final(self).players@ == old(self).players@.update(
                        i,
                        (LobbyPlayer {
                            is_ready: !old(self).players@[i].is_ready,
                            ..old(self).players@[i]
                        }),
                    )
                    &&& final(self).chat_messages@.len() == old(self).chat_messages@.len() + 1
                    &&& final(self).chat_messages@.drop_last() == old(self).chat_messages@
                    &&& final(self).chat_messages@.last().sender@ == "System"@
                    &&& final(self).chat_messages@.last().message_type == ChatMessageType::System
                    &&& final(self).chat_messages@.last().message@ == old(self).players@[i].name@
                        + (if !old(self).players@[i].is_ready {
                            " is now ready"@
                        } else {
                            " is now not ready"@
                        })
                },
            *final(self) == (LobbyState {
                players: final(self).players,
                chat_messages: final(self).chat_messages,
                ..*old(self)
            }),
    {
        let found = local_index(&self.players);
        if let Some(i) = found {
            let p = self.players.remove(i);
            let name_copy = p.name.clone();
            let new_ready = !p.is_ready;
            self.players.insert(i, LobbyPlayer { is_ready: new_ready, ..p });
            proof {
                assert(self.players@ =~= old(self).players@.update(
                    i as int,
                    (LobbyPlayer {
                        is_ready: !old(self).players@[i as int].is_ready,
                        ..old(self).players@[i as int]
                    }),
                ));
            }
            let text = if new_ready {
                name_copy.concat(" is now ready")
            } else {
                name_copy.concat(" is now not ready")
            };
            self.add_system_message(text.as_str());
        }
    }

    /// Kick the player at the given roster index, announcing it; kicking an
    /// absent index is a no-op.
    pub fn kick_player(&mut self, player_index: usize)
        requires
            old(self).wf(),
        ensures
            final(self).wf(),
            player_index >= old(self).players@.len() ==> *final(self) == *old(self),
            player_index < old(self).players@.len() ==> {
                &&& final(self).players@ == old(self).players@.remove(player_index as int)
                &&& final(self).chat_messages@.len() == old(self).chat_messages@.len() + 1
                &&& final(self).chat_messages@.drop_last() == old(self).chat_messages@
                &&& final(self).chat_messages@.last().sender@ == "System"@
                &&& final(self).chat_messages@.last().message_type == ChatMessageType::System
                &&& final(self).chat_messages@.last().message@
                    == old(self).players@[player_index as int].name@ + " was kicked from the lobby"@
            },
            *final(self) == (LobbyState {
                players: final(self).players,
                chat_messages: final(self).chat_messages,
                ..*old(self)
            }),
    {
        if player_index < self.players.len() {
            let kicked = self.players.remove(player_index);
            let text = kicked.name.concat(" was kicked from the lobby");
            self.add_system_message(text.as_str());
        }
    }

    /// Send the pending chat input, trimmed of surrounding white space, as
    /// the local player's line; a lobby with no local player, or an input
    /// that is empty or white space only, sends nothing and stays unchanged.
    pub fn send_chat_message(&mut self)
        requires
            old(self).wf(),
        ensures
            final(self).wf(),
            !has_local(old(self).players@) || trim_spec(old(self).current_chat_input@).len() == 0
                ==> *final(self) == *old(self),
            has_local(old(self).players@) && trim_spec(old(self).current_chat_input@).len() > 0
                ==> {
                    &&& final(self).current_chat_input@.len() == 0
                    &&& final(self).chat_messages@.len() == old(self).chat_messages@.len() + 1
                    &&& final(self).chat_messages@.drop_last() == old(self).chat_messages@
                    &&& final(self).chat_messages@.last().message@
                        == trim_spec(old(self).current_chat_input@)
                    &&& final(self).chat_messages@.last().message_type == ChatMessageType::Player
                    &&& exists|i: int|
                        #![auto]
                        {
                            &&& 0 <= i < old(self).players@.len()
                            &&& old(self).players@[i].is_local
                            &&& forall|k: int| 0 <= k < i ==> !old(self).players@[k].is_local
                            &&& final(self).chat_messages@.last().sender@
                                == old(self).players@[i].name@
                        }
                },
            *final(self) == (LobbyState {
                chat_messages: final(self).chat_messages,
                current_chat_input: final(self).current_chat_input,
                ..*old(self)
            }),
    {
        let found = local_index(&self.players);
        if let Some(i) = found {
            let message = trim_string(&self.current_chat_input);
            if !message.as_str().is_empty() {
                let sender = self.players[i].name.clone();
                self.current_chat_input = String::new();
                let msg = ChatMessage { sender, message, message_type: ChatMessageType::Player };
                self.chat_messages.push(msg);
                proof {
                    assert(self.chat_messages@.drop_last() =~= old(self).chat_messages@);
                }
            }
        }
    }

    /// Host a new room: a fresh six-character room code, a four-seat
    /// capacity, and a roster holding only the local player (named
    /// `Player` if no name was set), with a cleared chat.
    pub fn create_lobby(&mut self)
        requires
            old(self).wf(),
        ensures
            final(self).wf(),
            final(self).is_host,
            final(self).max_players == 4,
            final(self).room_id is Some,
            final(self).room_id->0@.len() == 6,
            forall|i: int| 0 <= i < 6 ==> room_code_alphabet().contains(#[trigger] final(self).room_id->0@[i]),
            final(self).local_player_name@ == (if old(self).local_player_name@.len() == 0 {
                "Player"@
            } else {
                old(self).local_player_name@
            }),
            final(self).players@.len() == 1,
            final(self).players@[0].name@ == final(self).local_player_name@,
            final(self).players@[0].is_local,
            !final(self).players@[0].is_ready,
            final(self).players@[0].network_handle == 0,
            final(self).chat_messages@.len() == 1,
            final(self).chat_messages@[0].message@ == "Lobby created!"@,
            final(self).chat_messages@[0].message_type == ChatMessageType::System,
            final(self).game_started == old(self).game_started,
            final(self).current_chat_input@ == old(self).current_chat_input@,
    {
        let code = generate_room_code();
        if self.local_player_name.as_str().is_empty() {
            self.local_player_name = "Player".to_owned();
        }
        let name_copy = self.local_player_name.clone();
        self.room_id = Some(code);
        self.is_host = true;
        self.max_players = 4;
        let mut roster: Vec<LobbyPlayer> = Vec::new();
        roster.push(LobbyPlayer {
            id: fresh_player_id(),
            name: name_copy,
            is_ready: false,
            network_handle: 0,
            is_local: true,
        });
        self.players = roster;
        self.chat_messages = Vec::new();
        self.add_system_message("Lobby created!");
    }

    /// Join an existing room by its code: a four-seat capacity and a roster
    /// holding the (remote) host and the local player, with a cleared chat
    /// announcing the join.
    pub fn join_lobby(&mut self, room_code: String)
        requires
            old(self).wf(),
        ensures
            final(self).wf(),
            !final(self).is_host,
            final(self).max_players == 4,
            final(self).room_id is Some,
            final(self).room_id->0@ == room_code@,
            final(self).local_player_name@ == (if old(self).local_player_name@.len() == 0 {
                "Player"@
            } else {
                old(self).local_player_name@
            }),
            final(self).players@.len() == 2,
            final(self).players@[0].name@ == "Host"@,
            !final(self).players@[0].is_local,
            !final(self).players@[0].is_ready,
            final(self).players@[0].network_handle == 0,
            final(self).players@[1].name@ == final(self).local_player_name@,
            final(self).players@[1].is_local,
            !final(self).players@[1].is_ready,
            final(self).players@[1].network_handle == 1,
            final(self).chat_messages@.len() == 1,
            final(self).chat_messages@[0].message@ == "Joined room: "@ + room_code@,
            final(self).chat_messages@[0].message_type == ChatMessageType::System,
            final(self).game_started == old(self).game_started,
            final(self).current_chat_input@ == old(self).current_chat_input@,
    {
        if self.local_player_name.as_str().is_empty() {
            self.local_player_name = "Player".to_owned();
        }
        let name_copy = self.local_player_name.clone();
        let announce = "Joined room: ".to_owned().concat(room_code.as_str());
        self.room_id = Some(room_code);
        self.is_host = false;
        self.max_players = 4;
        let mut roster: Vec<LobbyPlayer> = Vec::new();
        roster.push(LobbyPlayer {
            id: fresh_player_id(),
            name: "Host".to_owned(),
            is_ready: false,
            network_handle: 0,
            is_local: false,
        });
        roster.push(LobbyPlayer {
            id: fresh_player_id(),
            name: name_copy,
            is_ready: false,
            network_handle: 1,
            is_local: true,
        });
        self.players = roster;
        self.chat_messages = Vec::new();
        self.add_system_message(announce.as_str());
    }

    /// Leave the room: the roster, the room code and the host flag are
    /// dropped; the chosen display name and the chat log remain.
    pub fn leave_lobby(&mut self)
        requires
            old(self).wf(),
        ensures
            final(self).wf(),
            final(self).room_id is None,
            final(self).players@.len() == 0,
            !final(self).is_host,
            !final(self).game_started,
            final(self).max_players == old(self).max_players,
            final(self).local_player_name@ == old(self).local_player_name@,
            final(self).chat_messages@ == old(self).chat_messages@,
            final(self).current_chat_input@ == old(self).current_chat_input@,
    {
        self.room_id = None;
        self.players = Vec::new();
        self.is_host = false;
        self.game_started = false;
    }

    /// Start the game if the readiness gate allows it; reports whether it
    /// did.
    pub fn start_game(&mut self) -> (started: bool)
        requires
            old(self).wf(),
        ensures
            final(self).wf(),
            started == can_start_spec(old(self).players@),
            !started ==> *final(self) == *old(self),
            started ==> {
                &&& final(self).game_started
                &&& final(self).chat_messages@.len() == old(self).chat_messages@.len() + 1
                &&& final(self).chat_messages@.drop_last() == old(self).chat_messages@
                &&& final(self).chat_messages@.last().message@ == "Game starting!"@
                &&& final(self).chat_messages@.last().message_type == ChatMessageType::System
                &&& *final(self) == (LobbyState {
                    game_started: true,
                    chat_messages: final(self).chat_messages,
                    ..*old(self)
                })
            },
    {
        if self.can_start() {
            self.game_started = true;
            self.add_system_message("Game starting!");
            true
        } else {
            false
        }
    }

    /// Change the capacity; a capacity below the seated roster is rejected,
    /// never silently truncated.
    pub fn set_max_players(&mut self, new_max: usize) -> (r: Result<(), LobbyError>)
        requires
            old(self).wf(),
            2 <= new_max <= 4,
        ensures
            final(self).wf(),
            r is Ok <==> old(self).players@.len() <= new_max,
            r is Ok ==> *final(self) == (LobbyState { max_players: new_max, ..*old(self) }),
            r is Err ==> *final(self) == *old(self)
                && r == Err::<(), LobbyError>(LobbyError::CapacityExceeded),
    {
        if self.players.len() <= new_max {
            self.max_players = new_max;
            Ok(())
        } else {
            Err(LobbyError::CapacityExceeded)
        }
    }

    /// Seat a bot on the next free seat: a rotating name, a fresh identity,
    /// a random readiness; announced in the chat. A full lobby rejects it.
    pub fn add_bot_player(&mut self) -> (r: Result<(), LobbyError>)
        requires
            old(self).wf(),
        ensures
            final(self).wf(),
            r is Ok <==> old(self).players@.len() < old(self).max_players,
            r is Err ==> *final(self) == *old(self)
                && r == Err::<(), LobbyError>(LobbyError::CapacityExceeded),
            r is Ok ==> {
                &&& final(self).players@.len() == old(self).players@.len() + 1
                &&& final(self).players@.drop_last() == old(self).players@
                &&& final(self).players@.last().name@
                    == bot_base_name(old(self).players@.len() as int) + " (Bot)"@
                &&& final(self).players@.last().network_handle == old(self).players@.len() as u32
                &&& !final(self).players@.last().is_local
                &&& final(self).chat_messages@.len() == old(self).chat_messages@.len() + 1
                &&& final(self).chat_messages@.drop_last() == old(self).chat_messages@
                &&& final(self).chat_messages@.last().message@
                    == bot_base_name(old(self).players@.len() as int) + " (Bot)"@
                        + " joined the lobby"@
                &&& final(self).chat_messages@.last().message_type == ChatMessageType::System
            },
            *final(self) == (LobbyState {
                players: final(self).players,
                chat_messages: final(self).chat_messages,
                ..*old(self)
            }),
    {
        if self.players.len() >= self.max_players {
            return Err(LobbyError::CapacityExceeded);
        }
        let next = self.players.len();
        let base = match next % 7 {
            0 => "Archer",
            1 => "Hunter",
            2 => "Ranger",
            3 => "Scout",
            4 => "Sniper",
            5 => "Robin",
            _ => "Legolas",
        };
        let bot_name = base.to_owned().concat(" (Bot)");
        let announce = bot_name.clone().concat(" joined the lobby");
        self.players.push(LobbyPlayer {
            id: fresh_player_id(),
            name: bot_name,
            is_ready: random_flag(),
            network_handle: next as u32,
            is_local: false,
        });
        proof {
            assert(self.players@.drop_last() =~= old(self).players@);
        }
        self.add_system_message(announce.as_str());
        Ok(())
    }

    /// Seat bots until the lobby is full.
    pub fn fill_lobby_with_bots(&mut self)
        requires
            old(self).wf(),
        ensures
            final(self).wf(),
            old(self).players@.len() >= old(self).max_players ==> *final(self) == *old(self),
            old(self).players@.len() < old(self).max_players ==> {
                &&& final(self).players@.len() == old(self).max_players
                &&& final(self).players@.take(old(self).players@.len() as int)
                    == old(self).players@
                &&& final(self).chat_messages@.len() == old(self).chat_messages@.len()
                    + old(self).max_players - old(self).players@.len()
            },
            *final(self) == (LobbyState {
                players: final(self).players,
                chat_messages: final(self).chat_messages,
                ..*old(self)
            }),
    {
        while self.players.len() < self.max_players
            invariant
                self.wf(),
                old(self).players@.len() <= self.players@.len(),
                self.players@.take(old(self).players@.len() as int) == old(self).players@,
                self.players@.len() > old(self).players@.len()
                    ==> self.players@.len() <= self.max_players,
                self.players@.len() == old(self).players@.len() ==> *self == *old(self),
                self.chat_messages@.len() == old(self).chat_messages@.len()
                    + self.players@.len() - old(self).players@.len(),
                *self == (LobbyState {
                    players: self.players,
                    chat_messages: self.chat_messages,
                    ..*old(self)
                }),
            decreases self.max_players - self.players@.len(),
        {
            let ghost before = self.players@;
            let _ = self.add_bot_player();
            proof {
                assert(self.players@.take(old(self).players@.len() as int)
                    =~= before.take(old(self).players@.len() as int));
            }
        }
    }
}

/// Whether every seated player is ready (an empty roster is not "ready").
pub fn all_players_ready(players: &Vec<LobbyPlayer>) -> (b: bool)
    ensures
        b == (players@.len() > 0 && all_ready(players@)),
{
    let n = players.len();
    if n == 0 {
        return false;
    }
    for i in 0..n
        invariant
            n == players@.len(),
            forall|k: int| 0 <= k < i ==> (#[trigger] players@[k]).is_ready,
    {
        if !players[i].is_ready {
            return false;
        }
    }
    true
}

/// The first roster index seated by the local player, if any.
fn local_index(players: &Vec<LobbyPlayer>) -> (r: Option<usize>)
    ensures
        match r {
            Some(i) => i < players@.len() && players@[i as int].is_local
                && forall|k: int| 0 <= k < i ==> !(#[trigger] players@[k]).is_local,
            None => !has_local(players@),
        },
{
    let n = players.len();
    for i in 0..n
        invariant
            n == players@.len(),
            forall|k: int| 0 <= k < i ==> !(#[trigger] players@[k]).is_local,
    {
        if players[i].is_local {
            return Some(i);
        }
    }
    None
}

/// A six-character room code drawn from the code alphabet.
pub fn generate_room_code() -> (code: String)
    ensures
        code@.len() == 6,
        forall|i: int| 0 <= i < 6 ==> room_code_alphabet().contains(#[trigger] code@[i]),
{
    let alphabet = "ABCDEFGHIJKLMNOPQRSTUVWXYZ0123456789";
    proof {
        reveal_strlit("ABCDEFGHIJKLMNOPQRSTUVWXYZ0123456789");
    }
    let mut code = String::new();
    for k in 0..6usize
        invariant
            alphabet@ == room_code_alphabet(),
            alphabet@.len() == 36,
            code@.len() == k,
            forall|i: int| 0 <= i < k ==> room_code_alphabet().contains(#[trigger] code@[i]),
    {
        let idx = random_below(36);
        let ch = alphabet.substring_char(idx, idx + 1);
        code.append(ch);
        proof {
            assert(code@.last() == alphabet@[idx as int]);
            assert(room_code_alphabet().contains(code@[k as int]));
        }
    }
    code
}

/// The readiness law: one player can never start; with two or more, the
/// start is allowed exactly when everyone is ready; and seating an unready
/// player withdraws a start that was allowed.
pub proof fn lemma_readiness_gate(players: Seq<LobbyPlayer>, p: LobbyPlayer)
    ensures
        players.len() < 2 ==> !can_start_spec(players),
        players.len() >= 2 ==> (can_start_spec(players) <==> all_ready(players)),
        !p.is_ready ==> !can_start_spec(players.push(p)),
{
    if !p.is_ready {
        assert(players.push(p)[players.len() as int] == p);
    }
}

} // verus!
