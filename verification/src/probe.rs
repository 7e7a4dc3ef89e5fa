//! Waiting for a port: how often to try, and when to stop.

use vstd::prelude::*;

verus! {

/// How long a stopped server's port may take to be released, in seconds.
pub const PORT_FREE_TIMEOUT_SECS: u64 = 15;

/// How long one attempt to connect to a starting server may take, in milliseconds.
pub const LISTEN_PROBE_MILLIS: u64 = 500;

/// How long one attempt to connect to a port being released may take, in milliseconds.
pub const FREE_PROBE_MILLIS: u64 = 300;

/// The pause between two attempts to connect, in milliseconds.
pub const POLL_INTERVAL_MILLIS: u64 = 250;

/// Decides one round of waiting for a server to accept connections:
/// `Some(true)` once a connection succeeds, `Some(false)` once the deadline
/// has passed, `None` to try again.
pub fn listening_poll(connected: bool, timed_out: bool) -> (r: Option<bool>)
    ensures
        connected ==> r == Some(true),
        !connected && timed_out ==> r == Some(false),
        !connected && !timed_out ==> r is None,
{
    if connected {
        Some(true)
    } else if timed_out {
        Some(false)
    } else {
        None
    }
}

/// Decides one round of waiting for a port to be released: `Some(true)` once
/// a connection fails, `Some(false)` once the deadline has passed, `None` to
/// try again.
pub fn port_free_poll(connected: bool, timed_out: bool) -> (r: Option<bool>)
    ensures
        !connected ==> r == Some(true),
        connected && timed_out ==> r == Some(false),
        connected && !timed_out ==> r is None,
{
    if !connected {
        Some(true)
    } else if timed_out {
        Some(false)
    } else {
        None
    }
}

} // verus!
