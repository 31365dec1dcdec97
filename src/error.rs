use vstd::prelude::*;

verus! {

/// Errors that a unit of work, or the transport that carries it, can report.
#[derive(Debug, Clone, Copy, PartialEq, Eq, Structural)]
pub enum Error {
    /// The resource's class is not registered (its host process is restarting).
    ClassNotRegistered,
    /// The server that backs the resource is unavailable.
    RpcServerNotAvailable,
    /// The resource object has been disconnected from its server.
    ComObjectNotConnected,
    /// The resource handed back a null object where one was expected.
    ComAllocatedNullPtr,
    /// The resource refused the operation.
    AccessDenied,
    /// The requested desktop does not exist.
    DesktopNotFound,
    /// The requested window does not exist.
    WindowNotFound,
    /// Any other failure code reported by the resource.
    ComError(i32),
    /// The command queue was closed when work was submitted.
    SenderError,
    /// The worker never sent back a result.
    ReceiverError,
    /// The worker thread terminated abnormally when it was joined.
    JoinError,
}

/// The transient kinds: the resource's backing process was restarted or is
/// momentarily unreachable, so a reset and a new attempt may succeed.
pub open spec fn is_transient(e: Error) -> bool {
    match e {
        Error::ClassNotRegistered => true,
        Error::RpcServerNotAvailable => true,
        Error::ComObjectNotConnected => true,
        Error::ComAllocatedNullPtr => true,
        _ => false,
    }
}

/// An outcome that calls for a reset and another attempt.
pub open spec fn should_retry<T>(r: Result<T, Error>) -> bool {
    match r {
        Err(e) => is_transient(e),
        Ok(_) => false,
    }
}

impl Error {
    /// Whether this error belongs to the transient set.
    pub fn is_transient(&self) -> (b: bool)
        ensures
            b == is_transient(*self),
    {
        match self {
            Error::ClassNotRegistered => true,
            Error::RpcServerNotAvailable => true,
            Error::ComObjectNotConnected => true,
            Error::ComAllocatedNullPtr => true,
            _ => false,
        }
    }
}

/// Whether an outcome calls for a reset and another attempt.
pub fn is_retryable<T>(r: &Result<T, Error>) -> (b: bool)
    ensures
        b == should_retry(*r),
{
    match r {
        Err(e) => e.is_transient(),
        Ok(_) => false,
    }
}

} // verus!
