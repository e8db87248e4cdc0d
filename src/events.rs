//! Line events that the host reports through an event wait.

use vstd::prelude::*;

verus! {

/// A byte was received.
pub const EV_RXCHAR: u32 = 0x0001;
/// The event character was received.
pub const EV_RXFLAG: u32 = 0x0002;
/// The last byte of the output buffer was sent.
pub const EV_TXEMPTY: u32 = 0x0004;
/// The CTS signal changed state.
pub const EV_CTS: u32 = 0x0008;
/// The DSR signal changed state.
pub const EV_DSR: u32 = 0x0010;
/// The RLSD (receive-line-signal-detect) signal changed state.
pub const EV_RLSD: u32 = 0x0020;
/// A break was detected on input.
pub const EV_BREAK: u32 = 0x0040;
/// A line-status error occurred.
pub const EV_ERR: u32 = 0x0080;
/// A ring indicator was detected.
pub const EV_RING: u32 = 0x0100;

/// The events an event wait subscribes to: every line event.
pub const SUBSCRIBED_EVENTS: u32 = EV_RXCHAR | EV_RXFLAG | EV_TXEMPTY | EV_CTS | EV_DSR | EV_RLSD
    | EV_BREAK | EV_ERR | EV_RING;

} // verus!
