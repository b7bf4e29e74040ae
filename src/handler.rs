//! The phase-handler adapter: one logical asynchronous computation spread
//! over many synchronous invocations of an nginx phase handler.
use vstd::prelude::*;

use crate::phases::NgxHttpPhases;
use crate::status::{NGX_AGAIN, NGX_ERROR};

verus! {

/// An error type for asynchronous handler operations.
#[derive(PartialEq, Eq, Structural, Clone, Copy, Debug)]
pub enum AsyncHandlerError {
    /// Indicates that the context creation failed.
    ContextCreationFailed,
    /// Indicates that there is no async launcher available.
    NoAsyncLauncher,
    /// Indicates that the context deletion failed.
    ContextDeletionFailed,
}

impl AsyncHandlerError {
    /// Human-readable description of the error.
    pub fn message(&self) -> (r: &'static str)
        ensures
            r@ == async_handler_error_message(*self),
    {
        match self {
            AsyncHandlerError::ContextCreationFailed => "AsyncHandler: Context creation failed",
            AsyncHandlerError::NoAsyncLauncher => "AsyncHandler: No async launcher available",
            AsyncHandlerError::ContextDeletionFailed => "AsyncHandler: Context deletion failed",
        }
    }
}

/// What `AsyncHandlerError::message` returns.
pub open spec fn async_handler_error_message(e: AsyncHandlerError) -> Seq<char> {
    match e {
        AsyncHandlerError::ContextCreationFailed => "AsyncHandler: Context creation failed"@,
        AsyncHandlerError::NoAsyncLauncher => "AsyncHandler: No async launcher available"@,
        AsyncHandlerError::ContextDeletionFailed => "AsyncHandler: Context deletion failed"@,
    }
}

/// Per-request state of the adapter, kept in the request's scoped storage.
/// `L` is the handle of the spawned task.
pub struct AsyncRequestContext<L> {
    pub launcher: Option<L>,
}

/// What the host is to do after one invocation of the adapter.
pub enum HandlerStep<L> {
    /// The task is still running: answer `NGX_AGAIN` and wait to be called again.
    Again,
    /// The task has finished: its handle is handed out to be joined, and the
    /// per-request context is gone.
    Join(L),
}

/// The adapter's transition: the new content of the per-request slot, and the step taken.
///
/// `spawned` is the handle of a task started for this invocation, which the
/// caller provides exactly when the slot was empty (`None` if the context
/// could not be allocated). `finished` is what the task in the slot reported
/// when asked whether it has completed.
pub open spec fn handler_spec<L>(
    slot: Option<AsyncRequestContext<L>>,
    spawned: Option<L>,
    finished: bool,
) -> (Option<AsyncRequestContext<L>>, Result<HandlerStep<L>, AsyncHandlerError>) {
    match slot {
        None => match spawned {
            None => (None, Err(AsyncHandlerError::ContextCreationFailed)),
            Some(l) => if finished {
                (None, Ok(HandlerStep::Join(l)))
            } else {
                (Some(AsyncRequestContext { launcher: Some(l) }), Ok(HandlerStep::Again))
            },
        },
        Some(ctx) => match ctx.launcher {
            None => (Some(ctx), Err(AsyncHandlerError::NoAsyncLauncher)),
            Some(l) => if finished {
                (None, Ok(HandlerStep::Join(l)))
            } else {
                (Some(ctx), Ok(HandlerStep::Again))
            },
        },
    }
}

/// One invocation of the phase-handler adapter.
///
/// With no context for the request yet, the freshly spawned task is stored in
/// a new one (or allocation failure is reported). While the task runs, the
/// adapter asks the host to call again. Once the task has finished, the
/// context is removed and the task handed out to be joined.
pub fn handler<L>(
    slot: &mut Option<AsyncRequestContext<L>>,
    spawned: Option<L>,
    finished: bool,
) -> (r: Result<HandlerStep<L>, AsyncHandlerError>)
    requires
        old(slot).is_some() ==> spawned.is_none(),
    ensures
        (*final(slot), r) == handler_spec(*old(slot), spawned, finished),
{
    if slot.is_none() {
        match spawned {
            None => {
                return Err(AsyncHandlerError::ContextCreationFailed);
            },
            Some(l) => {
                *slot = Some(AsyncRequestContext { launcher: Some(l) });
            },
        }
    }
    let ctx = slot.take();
    match ctx {
        None => Err(AsyncHandlerError::ContextCreationFailed),
        Some(ctx) => match ctx.launcher {
            None => {
                *slot = Some(ctx);
                Err(AsyncHandlerError::NoAsyncLauncher)
            },
            Some(l) => {
                if finished {
                    Ok(HandlerStep::Join(l))
                } else {
                    *slot = Some(AsyncRequestContext { launcher: Some(l) });
                    Ok(HandlerStep::Again)
                }
            },
        },
    }
}

/// Re-entry never starts a second task: with a context present, the
/// adapter keeps it as it is or removes it, and hands out only the task it
/// holds.
pub proof fn lemma_context_reused<L>(ctx: AsyncRequestContext<L>, finished: bool)
    ensures
        ({
            let (slot, r) = handler_spec(Some(ctx), None, finished);
            &&& slot.is_none() || slot == Some(ctx)
            &&& r matches Ok(HandlerStep::Join(l)) ==> ctx.launcher == Some(l) && slot.is_none()
        }),
{
}

/// Once a request's task has been joined its context is gone, so the next
/// request to reach the phase starts from an empty slot and spawns its own
/// task, whatever the first one left behind.
pub proof fn lemma_joined_request_leaves_no_context<L>(
    slot: Option<AsyncRequestContext<L>>,
    spawned: Option<L>,
    next: L,
)
    requires
        handler_spec(slot, spawned, true).1 is Ok,
    ensures
        handler_spec(slot, spawned, true).0.is_none(),
        handler_spec(None, Some(next), false) == (
            Some(AsyncRequestContext { launcher: Some(next) }),
            Ok::<HandlerStep<L>, AsyncHandlerError>(HandlerStep::Again),
        ),
{
}

/// Translates the adapter's result into the host's status vocabulary:
/// `NGX_AGAIN` while running, the task's own code once joined, and
/// `NGX_ERROR` for a handler-level failure.
pub fn handler_status(r: Result<isize, AsyncHandlerError>) -> (s: isize)
    ensures
        r matches Ok(rc) ==> s == rc,
        r is Err ==> s == NGX_ERROR,
{
    match r {
        Ok(rc) => rc,
        Err(_) => NGX_ERROR,
    }
}

/// The status of a step that did not join: `NGX_AGAIN`.
pub fn again_status() -> (s: isize)
    ensures
        s == NGX_AGAIN,
{
    NGX_AGAIN
}

/// The phase an asynchronous handler is registered in. The content phase
/// is not supported, as its handler has a different contract.
pub fn async_phase(phase: NgxHttpPhases) -> (r: NgxHttpPhases)
    requires
        phase != NgxHttpPhases::Content,
    ensures
        r == phase,
{
    phase
}

/// The wrapper around a handler's computation: once it yields its final
/// value, a write event is posted to the request's connection so that nginx
/// calls the phase handler again.
pub struct HandlerFuture {
    pub connection: usize,
}

impl HandlerFuture {
    /// The connection to post a write event to after a poll with `outcome`:
    /// only when the computation has completed.
    pub fn post_target(&self, outcome: &Option<isize>) -> (r: Option<usize>)
        ensures
            outcome.is_some() ==> r == Some(self.connection),
            outcome.is_none() ==> r.is_none(),
    {
        match outcome {
            Some(_) => Some(self.connection),
            None => None,
        }
    }
}

} // verus!
