//! The two operations on the task slot that callers invoke: an upscale
//! request, which brackets its job with the slot, and a cancellation.
//!
//! An upscale request registers a fresh token, has a worker carry the job
//! through its steps, and clears the slot when the worker is done, however it
//! ended. The slot is touched only at the two ends, never while the job runs.
//! Requests are not queued: a second request that begins before the first has
//! finished takes the slot over.

use crate::error::{ErrorKind, ErrorView, UpscaleError};
use crate::job::{result_view, JobView, UpscaleJob, UpscaleRequest};
use crate::registry::ProcessingState;
use crate::resolver::outcome_view;
use crate::token::{CancelFlags, CancellationToken};
use vstd::prelude::*;

verus! {

/// What the caller of an upscale request is told: the path of the written
/// file, or the message of the failure.
pub open spec fn reported(result: Result<Seq<char>, ErrorView>) -> Result<Seq<char>, Seq<char>> {
    match result {
        Ok(path) => Ok(path),
        Err(error) => Err(error.message()),
    }
}

/// Begins an upscale request: constructs a token, registers it in the slot,
/// and hands out the job for a worker to carry through.
///
/// The request fails if and only if the lock around the slot is poisoned; the
/// slot is then left as it was.
pub fn begin_upscale(
    state: &mut ProcessingState,
    flags: &mut CancelFlags,
    request: UpscaleRequest,
) -> (result: Result<UpscaleJob, String>)
    ensures
        final(flags)@ == old(flags)@.push(false),
        match result {
            Ok(job) => !old(state)@.poisoned && job@ == JobView::start(request@, job@.token)
                && job@.token.id() == old(flags)@.len() && final(state)@ == old(state)@.register(
                job@.token,
            ),
            Err(message) => old(state)@.poisoned && final(state)@ == old(state)@ && message@
                == ErrorKind::LockPoisoned.prefix(),
        },
{
    let token = CancellationToken::new(flags);
    match state.register(token) {
        Ok(_) => Ok(UpscaleJob::new(request, token)),
        Err(error) => {
            let message = error.message();
            assert(message@ =~= ErrorKind::LockPoisoned.prefix());
            Err(message)
        },
    }
}

/// Finishes an upscale request: clears the slot and turns the result of the
/// worker into what the caller is told. A worker that ended abnormally is
/// handed in as a failure of the kind [`ErrorKind::WorkerJoinFailed`].
///
/// Unless the lock is poisoned the slot is empty afterwards, whatever the
/// result was and whichever token the slot held.
pub fn finish_upscale(state: &mut ProcessingState, result: Result<String, UpscaleError>) -> (reply:
    Result<String, String>)
    ensures
        final(state)@ == old(state)@.clear(),
        !old(state)@.poisoned ==> final(state)@.token is None,
        outcome_view(reply) == reported(result_view(result)),
{
    let _ = state.clear();
    match result {
        Ok(path) => Ok(path),
        Err(error) => Err(error.message()),
    }
}

/// Asks the active task to stop: sets the flag of the registered token.
///
/// Succeeds if and only if a token is registered and the lock is sound.
/// Otherwise no flag is touched and the caller is told why: with an empty
/// slot that no task is active, which is an ordinary outcome of a
/// cancellation that comes late; with a poisoned lock that the lock is
/// poisoned, whatever the slot holds.
pub fn cancel_upscale(state: &ProcessingState, flags: &mut CancelFlags) -> (reply: Result<
    (),
    String,
>)
    ensures
        final(flags)@ == state@.signal(old(flags)@),
        match reply {
            Ok(_) => state@.refusal() is None,
            Err(message) => state@.refusal() matches Some(kind) && message@ == kind.prefix(),
        },
{
    match state.signal_if_present(flags) {
        Ok(_) => Ok(()),
        Err(error) => {
            let message = error.message();
            assert(message@ =~= error@.kind.prefix());
            Err(message)
        },
    }
}

} // verus!
