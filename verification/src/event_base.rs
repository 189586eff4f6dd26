//! The event base: how a loop exit request is carried out.
use crate::util::Timeout;
use std::time::Duration;
use vstd::prelude::*;

verus! {

/// How `event_base_loopexit` stops the dispatch loop.
pub enum LoopExit {
    /// Stop the loop once the duration has passed.
    After(Duration),
    /// Stop the loop now, as `event_base_loopbreak` does.
    Now,
}

/// The way a loop exit with `timeout` is carried out: after the timeout if
/// there is one, at once otherwise.
pub fn loopexit_plan(timeout: Timeout) -> (plan: LoopExit)
    ensures
        match timeout@ {
            Some(d) => plan == LoopExit::After(d),
            None => plan is Now,
        },
{
    match Option::<Duration>::from(timeout) {
        Some(d) => LoopExit::After(d),
        None => LoopExit::Now,
    }
}

} // verus!
