//! A minimal BGP-4 peer: the wire codec for the message header and the OPEN
//! message, the framing of an inbound byte stream into whole messages, the
//! per-peer event queue, the early states of the peer state machine, and the
//! reading of a peer's configuration line.
pub mod config;
pub mod connection;
pub mod constants;
pub mod error;
pub mod event;
pub mod packet;
pub mod parse;
pub mod peer;
pub mod queue;
pub mod state;
pub mod types;
