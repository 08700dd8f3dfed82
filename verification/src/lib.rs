//! The decision core of a self-healing WebSocket client.
//!
//! Every blocking operation of the client (connecting, sleeping, reading and
//! writing frames, queue pushes and pops, timer ticks) is performed by a
//! driver outside this library. The library holds the rules: each component is
//! a state machine that is handed the outcome of the last operation as an
//! event and answers with the next operation to perform.

pub mod channel;
pub mod dispatch;
pub mod message;
pub mod pump;
pub mod vcp_config;
pub mod web_socket_client;

use vstd::prelude::*;

verus! {

/// Seconds that the tasks of a client are given to stop once a shutdown is
/// requested.
pub const SHUTDOWN_GRACE_SECS: u64 = 2;

} // verus!
