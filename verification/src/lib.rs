//! Core of a terminal chat client: identity management, the wire codec for the
//! newline-delimited JSON protocol, the session state machine that drives one
//! authenticated connection, and the application state it feeds.

pub mod clock;
pub mod codec;
pub mod config;
pub mod identity;
pub mod json;
pub mod session;
pub mod state;
pub mod text;
pub mod update;
pub mod wire;
