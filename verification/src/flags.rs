//! The libevent constants that the event layer reads, with the values of
//! libevent's public headers (`event2/event.h`, `event2/listener.h`).
use vstd::prelude::*;

verus! {

/// The event fired because its timeout elapsed.
pub const EV_TIMEOUT: u32 = 0x01;

/// Wait for the descriptor to become readable.
pub const EV_READ: u32 = 0x02;

/// Wait for the descriptor to become writable.
pub const EV_WRITE: u32 = 0x04;

/// Wait for a signal.
pub const EV_SIGNAL: u32 = 0x08;

/// Keep the event pending after it fired.
pub const EV_PERSIST: u32 = 0x10;

/// Run the loop once without blocking.
pub const EVLOOP_NONBLOCK: i32 = 0x02;

/// Listener option: close the socket on exec.
pub const LEV_OPT_CLOSE_ON_EXEC: u32 = 0x04;

/// Listener option: allow the address to be reused.
pub const LEV_OPT_REUSEABLE: u32 = 0x08;

/// Listener option: create the listener disabled.
pub const LEV_OPT_DISABLED: u32 = 0x20;

/// Listener option: allow the port to be reused.
pub const LEV_OPT_REUSEABLE_PORT: u32 = 0x80;

/// Whether the bit `flag` is set in `mask`.
pub open spec fn has_flag(mask: u32, flag: u32) -> bool {
    mask & flag != 0
}

} // verus!
