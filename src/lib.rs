//! A WebSocket relay that pairs a sender with a recipient and forwards
//! file-transfer signalling and binary chunks between them. The tables of
//! connections, pairings and file metadata, the routing of every inbound
//! frame, the heartbeat decision and the disconnect protocol are verified
//! here; sockets, queues and timers are driven by the caller.

pub mod clock;
pub mod error;
pub mod laws;
pub mod registry;
pub mod requests;
pub mod responses;
pub mod routing;
pub mod session;
pub mod text;
pub mod types;
