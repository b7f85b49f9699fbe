//! Client-side session layer between a transaction-processing node and a
//! remote block engine service.
//!
//! The library models the dual-stream session: an authenticated channel, an
//! outbound client-streaming path that forwards mempool packets in the order
//! the caller produces them, and an inbound server-streaming path whose drain
//! loop hands every received bundle to a caller-supplied handler, strictly in
//! arrival order, and stops silently when the remote stream ends.

pub mod auth;
pub mod errors;
pub mod inbound;
pub mod outbound;
pub mod payload;
pub mod session;
