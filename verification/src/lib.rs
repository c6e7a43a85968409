//! Core of a networked arena game, built around a deterministic rollback
//! simulation: per-frame state advance over fixed-point coordinates, a
//! ground-contact resolver, a session lifecycle state machine, and the lobby
//! roster that gates session start.
//!
//! Rendering, rigid-body integration and transport are collaborators outside
//! this crate: they hand the core plain values (event lists, ray-cast answers,
//! peer identities, per-frame inputs) and write back the states it returns.

pub mod codec;
pub mod config;
pub mod entropy;
pub mod ground;
pub mod input;
pub mod lobby;
pub mod player;
pub mod resources;
pub mod rollback;
pub mod session;
pub mod step;
pub mod text;
