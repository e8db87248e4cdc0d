//! A serial-port connection over the host's device-control interface:
//! the control-block codec, the host error table, and the decisions made
//! around each host call.

pub mod dcb;
pub mod error;
pub mod timeouts;
pub mod session;
pub mod io;
pub mod events;
