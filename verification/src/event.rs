//! Events: what an event waits for, whether the event layer admits it, and
//! what a wake-up of an admitted event does.
use crate::flags::{has_flag, EV_PERSIST, EV_READ, EV_SIGNAL, EV_TIMEOUT, EV_WRITE};
use crate::util::Timeout;
use vstd::prelude::*;

verus! {

/// An event as `event_add` hands it to the event base: the descriptor, the
/// libevent event mask, the optional timeout, and whether a callback is set.
pub struct Event {
    pub events: u32,
    pub fd: i32,
    pub timeout: Timeout,
    pub has_callback: bool,
}

/// Whether an event of mask `events` is well formed: a signal event waits
/// for nothing else, any other event waits for at least one of reading,
/// writing or a timeout.
pub open spec fn event_valid(events: u32, has_timeout: bool) -> bool {
    let waits = has_flag(events, EV_READ) || has_flag(events, EV_WRITE) || has_timeout;
    if has_flag(events, EV_SIGNAL) {
        !waits
    } else {
        waits
    }
}

/// What the event base does with an event that is added.
#[derive(Clone, Copy, Debug, PartialEq, Eq, Structural)]
pub enum Admission {
    /// The event is not well formed: `event_add` fails.
    Rejected,
    /// A well-formed signal event: signals are not implemented.
    Unsupported,
    /// A well-formed descriptor or timer event: a task watches it.
    Spawned,
}

/// The admission of an event of mask `events`.
pub open spec fn admission_of(events: u32, has_timeout: bool) -> Admission {
    if !event_valid(events, has_timeout) {
        Admission::Rejected
    } else if has_flag(events, EV_SIGNAL) {
        Admission::Unsupported
    } else {
        Admission::Spawned
    }
}

impl Admission {
    /// The status `event_add` returns: -1 for a rejected event, 0 for one
    /// that a task now watches.
    pub fn status(&self) -> (code: i32)
        requires
            *self != Admission::Unsupported,
        ensures
            code == (if *self == Admission::Rejected {
                -1i32
            } else {
                0i32
            }),
    {
        match self {
            Admission::Rejected => -1,
            _ => 0,
        }
    }
}

/// What woke the task that watches an event.
#[derive(Clone, Copy, Debug, PartialEq, Eq, Structural)]
pub enum Wake {
    Timeout,
    Readable,
    Writable,
}

/// The libevent flag that reports a wake-up to the callback.
pub open spec fn wake_flag(wake: Wake) -> u32 {
    match wake {
        Wake::Timeout => EV_TIMEOUT,
        Wake::Readable => EV_READ,
        Wake::Writable => EV_WRITE,
    }
}

/// What the task that watches an event does after one wake-up.
#[derive(Clone, Copy, Debug, PartialEq, Eq, Structural)]
pub struct Fire {
    /// The flags to call the callback with, if it is to be called.
    pub callback_flags: Option<i16>,
    /// Whether the task keeps watching the event.
    pub again: bool,
}

impl Event {
    /// Builds the event of an assigned libevent `event`: its C `short` mask
    /// is widened to 32 bits with its sign, as a C cast does.
    pub fn from_assigned(fd: i32, events: i16, timeout: Timeout, has_callback: bool) -> (e: Event)
        ensures
            e.fd == fd,
            e.events == events as u32,
            e.timeout@ == timeout@,
            e.has_callback == has_callback,
    {
        Event { events: events as u32, fd, timeout, has_callback }
    }

    /// Whether the event waits for its descriptor to become readable.
    pub fn is_read(&self) -> (b: bool)
        ensures
            b == has_flag(self.events, EV_READ),
    {
        self.events & EV_READ != 0
    }

    /// Whether the event waits for its descriptor to become writable.
    pub fn is_write(&self) -> (b: bool)
        ensures
            b == has_flag(self.events, EV_WRITE),
    {
        self.events & EV_WRITE != 0
    }

    /// Whether the event waits for a signal.
    pub fn is_signal(&self) -> (b: bool)
        ensures
            b == has_flag(self.events, EV_SIGNAL),
    {
        self.events & EV_SIGNAL != 0
    }

    /// Whether the event stays pending after it fired.
    pub fn is_persistant(&self) -> (b: bool)
        ensures
            b == has_flag(self.events, EV_PERSIST),
    {
        self.events & EV_PERSIST != 0
    }

    /// Whether the event is well formed (see `event_valid`).
    pub fn is_valid(&self) -> (b: bool)
        ensures
            b == event_valid(self.events, self.timeout@ is Some),
            !has_flag(self.events, EV_SIGNAL) ==> (b <==> (has_flag(self.events, EV_READ)
                || has_flag(self.events, EV_WRITE) || self.timeout@ is Some)),
            has_flag(self.events, EV_SIGNAL) ==> (b <==> (!has_flag(self.events, EV_READ)
                && !has_flag(self.events, EV_WRITE) && self.timeout@ is None)),
    {
        let non_signal = self.is_read() || self.is_write() || self.timeout.is_some();

        if self.is_signal() {
            !non_signal
        } else {
            non_signal
        }
    }

    /// What the event base does with the event when it is added.
    pub fn admission(&self) -> (a: Admission)
        ensures
            a == admission_of(self.events, self.timeout@ is Some),
            a == Admission::Rejected <==> !event_valid(self.events, self.timeout@ is Some),
            a == Admission::Unsupported <==> (event_valid(self.events, self.timeout@ is Some)
                && has_flag(self.events, EV_SIGNAL)),
            a == Admission::Spawned <==> (event_valid(self.events, self.timeout@ is Some)
                && !has_flag(self.events, EV_SIGNAL)),
    {
        if !self.is_valid() {
            Admission::Rejected
        } else if self.is_signal() {
            Admission::Unsupported
        } else {
            Admission::Spawned
        }
    }

    /// One wake-up of the task that watches the event. `wake` is the branch
    /// that completed, or `None` where a branch with nothing to wait for
    /// completed first. The callback is called with that branch's flag, if
    /// there is one and a callback is set; the task goes on watching only a
    /// persistent event.
    pub fn on_wake(&self, wake: Option<Wake>) -> (f: Fire)
        ensures
            f.callback_flags == (match wake {
                Some(w) => if self.has_callback {
                    Some(wake_flag(w) as i16)
                } else {
                    None
                },
                None => None,
            }),
            f.again == has_flag(self.events, EV_PERSIST),
            f.callback_flags is Some <==> (wake is Some && self.has_callback),
            wake == Some(Wake::Timeout) && self.has_callback ==> f.callback_flags == Some(
                EV_TIMEOUT as i16,
            ),
            wake == Some(Wake::Readable) && self.has_callback ==> f.callback_flags == Some(
                EV_READ as i16,
            ),
            wake == Some(Wake::Writable) && self.has_callback ==> f.callback_flags == Some(
                EV_WRITE as i16,
            ),
    {
        let callback_flags = match wake {
            Some(w) => {
                if self.has_callback {
                    let flag: u32 = match w {
                        Wake::Timeout => EV_TIMEOUT,
                        Wake::Readable => EV_READ,
                        Wake::Writable => EV_WRITE,
                    };
                    Some(flag as i16)
                } else {
                    None
                }
            },
            None => None,
        };
        Fire { callback_flags, again: self.is_persistant() }
    }
}

/// Which events are well formed: an event that is not a signal event is
/// well formed exactly when it waits for reading, writing or a timeout, in any
/// combination (so one that waits for reading or writing is well formed with
/// or without a timeout); a signal event is well formed exactly when it waits
/// for none of them.
pub proof fn lemma_event_validity(events: u32, has_timeout: bool)
    ensures
        !has_flag(events, EV_SIGNAL) && has_flag(events, EV_READ) ==> event_valid(events, has_timeout),
        !has_flag(events, EV_SIGNAL) && has_flag(events, EV_WRITE) ==> event_valid(events, has_timeout),
        !has_flag(events, EV_SIGNAL) && has_timeout ==> event_valid(events, has_timeout),
        !has_flag(events, EV_SIGNAL) && !has_flag(events, EV_READ) && !has_flag(events, EV_WRITE)
            && !has_timeout ==> !event_valid(events, has_timeout),
        has_flag(events, EV_SIGNAL) ==> (event_valid(events, has_timeout) <==> (!has_flag(
            events,
            EV_READ,
        ) && !has_flag(events, EV_WRITE) && !has_timeout)),
{
}

/// An added event is rejected exactly when it is malformed; a well-formed
/// event is watched unless it is a signal event; and the `EV_PERSIST` bit,
/// which only decides whether the watching goes on after a wake-up, never
/// changes the admission.
pub proof fn lemma_admission(events: u32, has_timeout: bool)
    ensures
        admission_of(events, has_timeout) == Admission::Rejected <==> !event_valid(events, has_timeout),
        event_valid(events, has_timeout) && !has_flag(events, EV_SIGNAL) ==> admission_of(
            events,
            has_timeout,
        ) == Admission::Spawned,
        event_valid(events, has_timeout) && has_flag(events, EV_SIGNAL) ==> admission_of(
            events,
            has_timeout,
        ) == Admission::Unsupported,
        admission_of(events | EV_PERSIST, has_timeout) == admission_of(events, has_timeout),
        admission_of(events & !EV_PERSIST, has_timeout) == admission_of(events, has_timeout),
{
    assert(((events | 0x10u32) & 0x02u32 != 0) == (events & 0x02u32 != 0)
        && ((events | 0x10u32) & 0x04u32 != 0) == (events & 0x04u32 != 0)
        && ((events | 0x10u32) & 0x08u32 != 0) == (events & 0x08u32 != 0)) by (bit_vector);
    assert(((events & !0x10u32) & 0x02u32 != 0) == (events & 0x02u32 != 0)
        && ((events & !0x10u32) & 0x04u32 != 0) == (events & 0x04u32 != 0)
        && ((events & !0x10u32) & 0x08u32 != 0) == (events & 0x08u32 != 0)) by (bit_vector);
}

} // verus!
