//! Connection listeners: how the libevent options shape the socket, and the
//! enable / disable protocol.
use crate::flags::{
    has_flag, LEV_OPT_CLOSE_ON_EXEC, LEV_OPT_DISABLED, LEV_OPT_REUSEABLE, LEV_OPT_REUSEABLE_PORT,
};
use vstd::prelude::*;

verus! {

/// The backlog a listener listens with when none is given.
pub const DEFAULT_BACKLOG: i32 = 128;

/// How `evconnlistener_new_bind` sets up the listening socket.
#[derive(Clone, Copy, Debug, PartialEq, Eq, Structural)]
pub struct ListenerSetup {
    /// The backlog passed to `listen`.
    pub backlog: i32,
    /// The value for the socket's IPv6-only option.
    pub only_v6: bool,
    /// The value for the socket's address-reuse option.
    pub reuse_address: bool,
    /// The value for the socket's port-reuse option.
    pub reuse_port: bool,
    /// Whether the listener starts accepting at once.
    pub start_enabled: bool,
}

impl ListenerSetup {
    /// The setup for option bits `flags`, a requested `backlog`, and whether
    /// a callback is given: a backlog that is not positive becomes 128; the
    /// IPv6-only option follows `LEV_OPT_CLOSE_ON_EXEC`, address reuse
    /// follows `LEV_OPT_REUSEABLE`, port reuse follows
    /// `LEV_OPT_REUSEABLE_PORT`; the listener starts accepting when
    /// `LEV_OPT_DISABLED` is set and there is a callback.
    pub fn from_options(flags: u32, backlog: i32, has_callback: bool) -> (s: ListenerSetup)
        ensures
            s.backlog == (if backlog > 0 {
                backlog
            } else {
                DEFAULT_BACKLOG
            }),
            s.only_v6 == has_flag(flags, LEV_OPT_CLOSE_ON_EXEC),
            s.reuse_address == has_flag(flags, LEV_OPT_REUSEABLE),
            s.reuse_port == has_flag(flags, LEV_OPT_REUSEABLE_PORT),
            s.start_enabled == (has_flag(flags, LEV_OPT_DISABLED) && has_callback),
    {
        let backlog = if backlog > 0 {
            backlog
        } else {
            DEFAULT_BACKLOG
        };
        ListenerSetup {
            backlog,
            only_v6: flags & LEV_OPT_CLOSE_ON_EXEC != 0,
            reuse_address: flags & LEV_OPT_REUSEABLE != 0,
            reuse_port: flags & LEV_OPT_REUSEABLE_PORT != 0,
            start_enabled: flags & LEV_OPT_DISABLED != 0 && has_callback,
        }
    }
}

/// Whether a listener accepts connections; its accepting task runs while
/// it does.
#[derive(Clone, Copy, Debug, PartialEq, Eq, Structural)]
pub struct ListenerState {
    pub enabled: bool,
}

/// The status and the new switch of `evconnlistener_enable` on a listener
/// whose switch is `enabled`: -1 and no change if it already accepts, else 0
/// and accepting.
pub open spec fn enable_outcome(enabled: bool) -> (int, bool) {
    if enabled {
        (-1, true)
    } else {
        (0, true)
    }
}

/// The status and the new switch of `evconnlistener_disable` on a listener
/// whose switch is `enabled`: 0 and stopped if it accepts, else -1 and no
/// change.
pub open spec fn disable_outcome(enabled: bool) -> (int, bool) {
    if enabled {
        (0, false)
    } else {
        (-1, false)
    }
}

impl ListenerState {
    /// A new listener: not accepting.
    pub fn new() -> (s: ListenerState)
        ensures
            !s.enabled,
    {
        ListenerState { enabled: false }
    }

    /// Whether the listener accepts connections.
    pub fn is_enabled(&self) -> (b: bool)
        ensures
            b == self.enabled,
    {
        self.enabled
    }

    /// Turns accepting on.
    pub fn enable(&mut self)
        ensures
            final(self).enabled,
    {
        self.enabled = true;
    }

    /// Turns accepting off.
    pub fn disable(&mut self)
        ensures
            !final(self).enabled,
    {
        self.enabled = false;
    }
}

/// `evconnlistener_enable` on an existing listener: 0 when it turns
/// accepting on, -1 when it already accepted.
pub fn evconnlistener_enable(listener: &mut ListenerState) -> (code: i32)
    ensures
        (code as int, final(listener).enabled) == enable_outcome(old(listener).enabled),
        code == 0 <==> !old(listener).enabled,
        code == -1 <==> old(listener).enabled,
        final(listener).enabled,
{
    if listener.is_enabled() {
        -1
    } else {
        listener.enable();
        0
    }
}

/// `evconnlistener_disable` on an existing listener: 0 when it turns
/// accepting off, -1 when it was not accepting.
pub fn evconnlistener_disable(listener: &mut ListenerState) -> (code: i32)
    ensures
        (code as int, final(listener).enabled) == disable_outcome(old(listener).enabled),
        code == 0 <==> old(listener).enabled,
        code == -1 <==> !old(listener).enabled,
        !final(listener).enabled,
{
    if listener.is_enabled() {
        listener.disable();
        0
    } else {
        -1
    }
}

/// Enabling a listener and then disabling it both succeed, from any
/// stopped listener, and leave it stopped; a second enable in a row fails
/// and leaves it accepting; a disable of a stopped listener fails. After an
/// enable the listener accepts and after a disable it does not, whatever the
/// status.
pub proof fn lemma_enable_disable_protocol(enabled: bool)
    ensures
        !enabled ==> enable_outcome(enabled).0 == 0 && disable_outcome(
            enable_outcome(enabled).1,
        ) == (0int, false),
        enable_outcome(enable_outcome(enabled).1) == (-1int, true),
        disable_outcome(disable_outcome(enabled).1) == (-1int, false),
        enable_outcome(enabled).1 && !disable_outcome(enabled).1,
        enable_outcome(enabled).0 == 0 <==> !enabled,
        disable_outcome(enabled).0 == 0 <==> enabled,
{
}

} // verus!
