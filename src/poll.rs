use vstd::prelude::*;

verus! {

/// Outcome of a non-blocking attempt at an operation that may have to wait.
#[derive(Debug, PartialEq, Eq)]
pub enum Poll<T> {
    /// The operation finished with the given value.
    Ready(T),
    /// The operation cannot finish yet; the caller polls again later.
    Pending,
}

impl<T> Poll<T> {
    /// Whether the operation has finished.
    pub fn is_ready(&self) -> (r: bool)
        ensures
            r == (*self is Ready),
    {
        match self {
            Poll::Ready(_) => true,
            Poll::Pending => false,
        }
    }

    /// Whether the operation has yet to finish.
    pub fn is_pending(&self) -> (r: bool)
        ensures
            r == (*self is Pending),
    {
        match self {
            Poll::Ready(_) => false,
            Poll::Pending => true,
        }
    }
}

/// Failure of a socket operation.
#[derive(Debug, Clone, Copy, PartialEq, Eq)]
pub enum IoError {
    /// The operation would block: wait for readiness, then try again.
    WouldBlock,
    /// Any other failure, with the operating system's error code (or -1 where
    /// there is none). The socket is to be treated as unusable.
    Hard(i32),
}

impl IoError {
    /// Whether the failure is the transient would-block condition.
    pub fn is_would_block(&self) -> (r: bool)
        ensures
            r == (*self is WouldBlock),
    {
        match self {
            IoError::WouldBlock => true,
            IoError::Hard(_) => false,
        }
    }
}

} // verus!
