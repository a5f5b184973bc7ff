//! Shutting down the asynchronous logger.

use vstd::prelude::*;

verus! {

/// The guard of an asynchronous logger: dropping it flushes the queued
/// messages and stops the logging thread.
#[verifier::external_type_specification]
#[verifier::external_body]
pub struct ExAsyncGuard(slog_async::AsyncGuard);

/// Flushes and stops the asynchronous logger by dropping its guard, which the
/// slot holds until the first call; later calls find the slot empty.
/// It is important to call this when the program exits.
pub fn shutdown_logger(guard: &mut Option<slog_async::AsyncGuard>)
    ensures
        *final(guard) is None,
{
    let _taken = guard.take();
}

} // verus!
