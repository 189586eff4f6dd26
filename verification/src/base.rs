//! The libevent base as the tokio side sees it: the descriptor it polls.
use vstd::prelude::*;

verus! {

/// The descriptor of a libevent base, which tokio polls for readiness.
#[derive(Clone, Copy, Debug, PartialEq, Eq, Structural)]
pub struct EventLoopFd {
    pub fd: i32,
}

/// Why a libevent base could not be set up.
#[derive(Clone, Copy, Debug, PartialEq, Eq, Structural)]
pub enum BaseError {
    /// libevent gave no base.
    CreateFailed,
    /// The base reported a negative descriptor.
    InvalidFd,
}

/// The message of each setup error.
pub open spec fn base_error_message(e: BaseError) -> Seq<char> {
    match e {
        BaseError::CreateFailed => "Failed to create libevent base"@,
        BaseError::InvalidFd => "Invalid libevent base file descriptor"@,
    }
}

impl BaseError {
    /// The message that the error carries.
    pub fn message(&self) -> (m: &'static str)
        ensures
            m@ == base_error_message(*self),
    {
        match self {
            BaseError::CreateFailed => "Failed to create libevent base",
            BaseError::InvalidFd => "Invalid libevent base file descriptor",
        }
    }
}

/// Checks the descriptor that a new base reports: a negative one is
/// refused.
pub fn checked_base_fd(fd: i32) -> (r: Result<EventLoopFd, BaseError>)
    ensures
        fd < 0 ==> r == Err::<EventLoopFd, BaseError>(BaseError::InvalidFd),
        fd >= 0 ==> r == Ok::<EventLoopFd, BaseError>(EventLoopFd { fd }),
{
    if fd < 0 {
        return Err(BaseError::InvalidFd);
    }
    Ok(EventLoopFd { fd })
}

} // verus!
