//! Media-session state synchronisation and control routing.
//!
//! The crate keeps the canonical "now playing" record of a media session,
//! decides what has to be published to the operating system's media-session
//! facility after each change, and routes remote-control requests back to the
//! listeners of the host application. Every function is verified against the
//! contract written on it.
//!
//! * [`kinds`], [`error`], [`events`]: the values that cross the interfaces.
//! * [`timeline`], [`text`], [`clock`]: times in microseconds, the fixed
//!   texts of the bus, and the wall clock.
//! * [`state`], [`thumbnail`], [`publish`]: the state of a session and what
//!   is published of it.
//! * [`listeners`], [`router`]: the listeners of the host and the routing of
//!   requests to them.
//! * [`session`]: the session's place on the bus, as a state machine for the
//!   thread that owns the connection.
//! * [`player`]: the media player of the host.
//! * [`platform`], [`service`]: the publisher for each platform and the media
//!   service built on it.
//! * [`laws`]: what holds of all of these together.

pub mod clock;
pub mod error;
pub mod events;
pub mod kinds;
pub mod laws;
pub mod listeners;
pub mod platform;
pub mod player;
pub mod publish;
pub mod router;
pub mod service;
pub mod session;
pub mod state;
pub mod text;
pub mod thumbnail;
pub mod timeline;
