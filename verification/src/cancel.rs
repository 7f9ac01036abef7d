use std::sync::atomic::AtomicBool;
use std::sync::Arc;
use crate::error::{Error, Result};
use vstd::prelude::*;

verus! {

/// Clones share a one-way, thread-safe cancellation flag.
///
/// Requests and prompt reads already in progress are not interrupted.
#[derive(Clone, Debug)]
pub struct CancellationToken(Arc<AtomicBool>);

impl CancellationToken {
    /// Create a token that has not been cancelled.
    pub fn new() -> (token: Self) {
        CancellationToken(Arc::new(AtomicBool::new(false)))
    }

    /// Request cancellation of this token and all its clones.
    pub fn cancel(&self) {
        self.0.store(true, std::sync::atomic::Ordering::Release);
    }

    /// Test whether cancellation has been requested.
    pub fn is_cancelled(&self) -> bool {
        self.0.load(std::sync::atomic::Ordering::Acquire)
    }

    /// Return `Error::Cancelled` if cancelled.
    pub fn check(&self) -> (r: Result<()>)
        ensures
            r matches Err(e) ==> e is Cancelled,
    {
        cancellation_result(self.is_cancelled())
    }
}

/// What a cancellation check answers for a flag read as `cancelled`:
/// `Error::Cancelled` exactly when cancellation was requested.
pub fn cancellation_result(cancelled: bool) -> (r: Result<()>)
    ensures
        r is Err <==> cancelled,
        r matches Err(e) ==> e is Cancelled,
{
    if cancelled {
        Err(Error::Cancelled)
    } else {
        Ok(())
    }
}

impl Default for CancellationToken {
    fn default() -> (token: Self) {
        CancellationToken::new()
    }
}

} // verus!
