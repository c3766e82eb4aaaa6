//! Decisions behind the WebSocket endpoints.

pub mod cdp;
pub mod notify;
pub mod relay;
pub mod ssh;

use vstd::prelude::*;

verus! {

/// The VNC server that `/ws/vnc` proxies to.
pub const VNC_TARGET: &'static str = "127.0.0.1:5900";

} // verus!
