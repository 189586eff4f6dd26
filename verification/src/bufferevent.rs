//! The switches of a buffer event: whether its tasks run, and which
//! directions are enabled.
use crate::flags::{has_flag, EV_READ, EV_WRITE};
use vstd::prelude::*;

verus! {

/// The state that a buffer event shares with the tasks that move its bytes.
#[derive(Clone, Copy, Debug, PartialEq, Eq, Structural)]
pub struct State {
    /// The tasks keep running until the buffer event is freed.
    pub running: bool,
    /// Reading from the connection is enabled.
    pub enable_read: bool,
    /// Writing the output buffer to the connection is enabled.
    pub enable_write: bool,
}

/// A direction switch after `bufferevent_enable` with mask `event`: on if it
/// was on or `flag` is in the mask (the C `short` mask is widened with its
/// sign).
pub open spec fn switched_on(was: bool, event: i16, flag: u32) -> bool {
    was || has_flag(event as u32, flag)
}

/// A direction switch after `bufferevent_disable` with mask `event`: off if
/// `flag` is in the mask, as it was otherwise.
pub open spec fn switched_off(was: bool, event: i16, flag: u32) -> bool {
    was && !has_flag(event as u32, flag)
}

/// What the writing task of a buffer event does next.
#[derive(Clone, Copy, Debug, PartialEq, Eq, Structural)]
pub enum WriterStep {
    /// The buffer event was freed: the task ends.
    Stop,
    /// Writing is enabled: wait for a write to be signalled, then write the
    /// output buffer to the connection.
    Flush,
    /// Writing is disabled: check again.
    Idle,
}

impl State {
    /// A fresh buffer event: running, both directions disabled.
    pub fn new() -> (s: State)
        ensures
            s.running,
            !s.enable_read,
            !s.enable_write,
    {
        State { running: true, enable_read: false, enable_write: false }
    }

    /// Stops the tasks of the buffer event.
    pub fn close(&mut self)
        ensures
            *final(self) == (State { running: false, ..*old(self) }),
    {
        self.running = false;
    }

    /// Enables reading.
    pub fn enable_read(&mut self)
        ensures
            *final(self) == (State { enable_read: true, ..*old(self) }),
    {
        self.enable_read = true;
    }

    /// Enables writing.
    pub fn enable_write(&mut self)
        ensures
            *final(self) == (State { enable_write: true, ..*old(self) }),
    {
        self.enable_write = true;
    }

    /// Disables reading.
    pub fn disable_read(&mut self)
        ensures
            *final(self) == (State { enable_read: false, ..*old(self) }),
    {
        self.enable_read = false;
    }

    /// Disables writing.
    pub fn disable_write(&mut self)
        ensures
            *final(self) == (State { enable_write: false, ..*old(self) }),
    {
        self.enable_write = false;
    }

    /// `bufferevent_enable` on an existing buffer event: enables each
    /// direction whose flag (`EV_READ`, `EV_WRITE`) is in `event`.
    pub fn enable(&mut self, event: i16)
        ensures
            final(self).running == old(self).running,
            final(self).enable_read == switched_on(old(self).enable_read, event, EV_READ),
            final(self).enable_write == switched_on(old(self).enable_write, event, EV_WRITE),
            has_flag(event as u32, EV_READ) ==> final(self).enable_read,
            has_flag(event as u32, EV_WRITE) ==> final(self).enable_write,
            !has_flag(event as u32, EV_READ) ==> final(self).enable_read == old(self).enable_read,
            !has_flag(event as u32, EV_WRITE) ==> final(self).enable_write == old(self).enable_write,
            old(self).enable_read ==> final(self).enable_read,
            old(self).enable_write ==> final(self).enable_write,
    {
        let event = event as u32;
        if event & EV_READ != 0 {
            self.enable_read();
        }
        if event & EV_WRITE != 0 {
            self.enable_write();
        }
    }

    /// `bufferevent_disable` on an existing buffer event: disables each
    /// direction whose flag (`EV_READ`, `EV_WRITE`) is in `event`.
    pub fn disable(&mut self, event: i16)
        ensures
            final(self).running == old(self).running,
            final(self).enable_read == switched_off(old(self).enable_read, event, EV_READ),
            final(self).enable_write == switched_off(old(self).enable_write, event, EV_WRITE),
            has_flag(event as u32, EV_READ) ==> !final(self).enable_read,
            has_flag(event as u32, EV_WRITE) ==> !final(self).enable_write,
            !has_flag(event as u32, EV_READ) ==> final(self).enable_read == old(self).enable_read,
            !has_flag(event as u32, EV_WRITE) ==> final(self).enable_write == old(self).enable_write,
            final(self).enable_read ==> old(self).enable_read,
            final(self).enable_write ==> old(self).enable_write,
    {
        let event = event as u32;
        if event & EV_READ != 0 {
            self.disable_read();
        }
        if event & EV_WRITE != 0 {
            self.disable_write();
        }
    }

    /// Whether the tasks of the buffer event keep running.
    pub fn is_running(&self) -> (b: bool)
        ensures
            b == self.running,
    {
        self.running
    }

    /// What the writing task does next.
    pub fn writer_step(&self) -> (step: WriterStep)
        ensures
            step == (if !self.running {
                WriterStep::Stop
            } else if self.enable_write {
                WriterStep::Flush
            } else {
                WriterStep::Idle
            }),
    {
        if !self.running {
            WriterStep::Stop
        } else if self.enable_write {
            WriterStep::Flush
        } else {
            WriterStep::Idle
        }
    }
}

/// Disabling a mask right after enabling it turns the directions in the mask
/// off and leaves the others as they were before; enabling a mask twice is
/// the same as enabling it once.
pub proof fn lemma_enable_then_disable(was: bool, event: i16, flag: u32)
    ensures
        switched_off(switched_on(was, event, flag), event, flag) == (was && !has_flag(
            event as u32,
            flag,
        )),
        !has_flag(event as u32, flag) ==> switched_off(switched_on(was, event, flag), event, flag)
            == was,
        switched_on(switched_on(was, event, flag), event, flag) == switched_on(was, event, flag),
{
}

/// Enabling with a mask turns on each direction whose own flag is in the
/// mask, whatever the other flags, leaves the others as they were, and never
/// turns a direction off.
pub proof fn lemma_enable_switches(was: bool, event: i16)
    ensures
        has_flag(event as u32, EV_READ) ==> switched_on(was, event, EV_READ),
        has_flag(event as u32, EV_WRITE) ==> switched_on(was, event, EV_WRITE),
        !has_flag(event as u32, EV_READ) ==> switched_on(was, event, EV_READ) == was,
        !has_flag(event as u32, EV_WRITE) ==> switched_on(was, event, EV_WRITE) == was,
        was ==> switched_on(was, event, EV_READ) && switched_on(was, event, EV_WRITE),
{
}

/// Disabling with a mask turns off each direction whose own flag is in the
/// mask, whatever it was before, leaves the others as they were, and never
/// turns a direction on.
pub proof fn lemma_disable_switches(was: bool, event: i16)
    ensures
        has_flag(event as u32, EV_READ) ==> !switched_off(was, event, EV_READ),
        has_flag(event as u32, EV_WRITE) ==> !switched_off(was, event, EV_WRITE),
        !has_flag(event as u32, EV_READ) ==> switched_off(was, event, EV_READ) == was,
        !has_flag(event as u32, EV_WRITE) ==> switched_off(was, event, EV_WRITE) == was,
        switched_off(was, event, EV_READ) ==> was,
        switched_off(was, event, EV_WRITE) ==> was,
{
}

} // verus!
