//! Presence-synchronization protocol for a multiplayer relay server.
//!
//! The crate covers the connection lifecycle shared by a game client and its
//! relay server: the fixed-length frame codec used on the wire, the session
//! state that travels over it, the client connection state machine, the
//! per-connection server session handler, and the broadcast hub that fans a
//! session's updates out to every other session while excluding self-echo.
//!
//! The embedding program keeps the sockets, timers, JSON conversion and
//! persistent files; it reports their outcomes as events and carries out the
//! actions these modules decide on.

pub mod accounts;
pub mod codec;
pub mod controller;
pub mod handler;
pub mod hub;
pub mod quests;
pub mod roster;
pub mod session;
