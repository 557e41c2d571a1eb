//! Room registry and real-time fan-out for a multi-room text relay.
//!
//! Rooms live in a registry keyed by an opaque id; each room owns a broadcast
//! topic; each live connection is bridged to a topic by a relay whose
//! decisions are made by the state machine in [`relay`].

pub mod auth;
mod ids;
pub mod message;
pub mod relay;
pub mod rooms;
pub mod session;
pub mod table;
pub mod time_limit;
pub mod topic;
pub mod user_name;
pub mod utility;
