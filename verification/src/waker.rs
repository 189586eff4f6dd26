//! The self-pipe that wakes the event loop: what the ends make of the
//! outcome of their pipe operations.
use vstd::prelude::*;

verus! {

/// The outcome of writing the wake-up byte into the pipe.
#[derive(Clone, Copy, Debug, PartialEq, Eq, Structural)]
pub enum PipeWrite {
    /// Bytes were written.
    Wrote(usize),
    /// The pipe is full: a wake-up is already pending.
    WouldBlock,
    /// Any other error.
    Failed,
}

/// The outcome of one read from the pipe while it is drained.
#[derive(Clone, Copy, Debug, PartialEq, Eq, Structural)]
pub enum PipeRead {
    /// Bytes were read.
    Data(usize),
    /// The write end is gone.
    Eof,
    /// The read failed.
    Failed,
    /// Nothing more to read now.
    Pending,
}

/// Whether `Sender::wakeup` succeeds: a write, or a full pipe, is a
/// success; any other error is passed on.
pub fn wakeup_succeeds(outcome: PipeWrite) -> (ok: bool)
    ensures
        ok == !(outcome is Failed),
{
    match outcome {
        PipeWrite::Wrote(_) => true,
        PipeWrite::WouldBlock => true,
        PipeWrite::Failed => false,
    }
}

/// Whether draining the pipe goes on after a read: it does after data and
/// stops once nothing is left. The end of the pipe and a failed read are
/// faults of the self-pipe, which the caller reports before asking.
pub fn drain_continues(outcome: PipeRead) -> (more: bool)
    requires
        !(outcome is Eof),
        !(outcome is Failed),
    ensures
        more == outcome is Data,
{
    match outcome {
        PipeRead::Data(_) => true,
        _ => false,
    }
}

} // verus!
