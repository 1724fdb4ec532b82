//! Fixed settings of the relay.

use vstd::prelude::*;

verus! {

/// How often heartbeat pings are sent, in seconds.
pub const HEARTBEAT_INTERVAL: u64 = 5;

/// How long a client may stay silent before it is taken for dead, in seconds.
pub const CLIENT_TIMEOUT: u64 = 10;

/// Address and port on which the relay listens unless told otherwise.
pub const WEBSOCKET_ADDR: &'static str = "0.0.0.0:8080";

} // verus!
