//! Request, command and message logic of the LemonCUC desktop-control backend.
//!
//! The HTTP server, the WebSocket plumbing and the child processes live in the
//! application crate; this library decides what is run, what is sent and what
//! is answered.

pub mod text;
pub mod command;
pub mod json;
pub mod handlers;
pub mod api;
pub mod tcpulse;
