//! The pending operation: the handle to one unit of work that was scheduled,
//! and its life from submission to the one call that consumes it.
//!
//! `H` is whatever the caller needs to reach the scheduled task: to ask
//! whether it has finished, to wait for it, to cancel it. Nothing here looks
//! inside it; the functions below decide when it is handed back, and it is
//! handed back at most once.

use vstd::prelude::*;
use crate::error::{Failure, QueryError};
use crate::handles::{lemma_retired_is_not_live, HandleTable};
use crate::task::{start_step, TaskStep};

verus! {

/// One asynchronous query: the task that runs it, while this handle still
/// holds it, and its result, where that is already here.
#[derive(Debug, PartialEq, Eq)]
pub struct QueryFuture<H> {
    pub handle: Option<H>,
    pub result: Option<Result<Vec<u8>, QueryError>>,
}

/// Where a pending operation stands.
pub enum FutureState {
    /// The unit of work was scheduled and its task is still held.
    Running,
    /// The result is here and was not read yet.
    Completed,
    /// Resolved, aborted or dropped: nothing is held any more.
    Released,
}

/// What `resolve` asks of its caller.
#[derive(Debug, PartialEq, Eq)]
pub enum ResolveStep<H> {
    /// This is the outcome.
    Done(Result<Vec<u8>, QueryError>),
    /// Wait for the task given here and report what it returned, through
    /// [`join_outcome`].
    Join(H),
}

/// What `abort` asks of its caller.
#[derive(Debug, PartialEq, Eq)]
pub struct AbortPlan<H> {
    /// Set the cancellation flag that the unit of work reads.
    pub raise_flag: bool,
    /// The task to cancel, if one was still held.
    pub cancel: Option<H>,
}

impl<H> QueryFuture<H> {
    /// Where this pending operation stands. A result that is here counts
    /// before a task that is held.
    pub open spec fn state(self) -> FutureState {
        if self.result is Some {
            FutureState::Completed
        } else if self.handle is Some {
            FutureState::Running
        } else {
            FutureState::Released
        }
    }

    /// Whether nothing is held any more.
    pub open spec fn released(self) -> bool {
        self.handle is None && self.result is None
    }

    /// The pending operation that holds nothing: what every consuming call
    /// leaves behind.
    pub open spec fn spent() -> Self {
        QueryFuture { handle: None, result: None }
    }

    /// The pending operation of a unit of work that was just scheduled.
    pub fn new(handle: H) -> (future: Self)
        ensures
            future.handle == Some(handle),
            future.result is None,
            future.state() is Running,
    {
        QueryFuture { handle: Some(handle), result: None }
    }
}

/// What [`typedb_future_resolve`] returns for a pending operation.
pub open spec fn resolve_step<H>(future: Option<QueryFuture<H>>) -> ResolveStep<H> {
    match future {
        None => ResolveStep::Done(Err(QueryError::NullFuture)),
        Some(f) => match f.result {
            Some(result) => ResolveStep::Done(result),
            None => match f.handle {
                Some(handle) => ResolveStep::Join(handle),
                None => ResolveStep::Done(Err(QueryError::Consumed)),
            },
        },
    }
}

/// What [`typedb_future_abort`] returns for a pending operation.
pub open spec fn abort_plan<H>(future: Option<QueryFuture<H>>) -> AbortPlan<H> {
    match future {
        None => AbortPlan { raise_flag: false, cancel: None },
        Some(f) => AbortPlan { raise_flag: true, cancel: f.handle },
    }
}

/// What a consuming call finds behind a token: nothing for the null token;
/// the pending operation for a token that names one; and for any other token,
/// a stale one or one that was never given out, the pending operation that
/// holds nothing.
pub open spec fn claimed<H>(table: HandleTable<QueryFuture<H>>, token: u64) -> Option<
    QueryFuture<H>,
> {
    if token == 0 {
        None
    } else if table.is_live(token) {
        Some(table.value_of(token))
    } else {
        Some(QueryFuture::<H>::spent())
    }
}

/// Puts the pending operation of a unit of work that was just scheduled into
/// the table and gives out its token. Where the table is full, the pending
/// operation comes back with the failure to report.
pub fn register<H>(table: &mut HandleTable<QueryFuture<H>>, handle: H) -> (issued: Result<
    u64,
    (QueryError, QueryFuture<H>),
>)
    requires
        old(table).wf(),
    ensures
        final(table).wf(),
        issued is Err <==> old(table).is_full(),
        match issued {
            Ok(token) => {
                &&& token != 0
                &&& !old(table).is_live(token)
                &&& !old(table).is_retired(token)
                &&& claimed(*final(table), token) == Some(
                    QueryFuture { handle: Some(handle), result: None },
                )
                &&& forall|other: u64|
                    other != token ==> claimed(*final(table), other) == claimed(
                        *old(table),
                        other,
                    )
            },
            Err(back) => back == (
                QueryError::TableFull,
                QueryFuture { handle: Some(handle), result: None },
            ) && *final(table) == *old(table),
        },
{
    match table.insert(QueryFuture::new(handle)) {
        Ok(token) => Ok(token),
        Err(future) => Err((QueryError::TableFull, future)),
    }
}

/// Claims the pending operation behind a token for the one call that may
/// consume it, and retires the token. A later call with the same token, from
/// whichever thread, finds the pending operation that holds nothing.
pub fn claim<H>(table: &mut HandleTable<QueryFuture<H>>, token: u64) -> (slot: Option<
    QueryFuture<H>,
>)
    requires
        old(table).wf(),
    ensures
        final(table).wf(),
        slot == claimed(*old(table), token),
        !final(table).is_live(token),
        old(table).is_live(token) ==> final(table).is_retired(token),
        !old(table).is_live(token) ==> *final(table) == *old(table),
        forall|other: u64|
            other != token ==> claimed(*final(table), other) == claimed(*old(table), other),
        forall|other: u64| old(table).is_retired(other) ==> final(table).is_retired(other),
{
    if token == 0 {
        proof {
            lemma_retired_is_not_live(*table, token);
        }
        return None;
    }
    match table.take(token) {
        Some(future) => Some(future),
        None => Some(QueryFuture { handle: None, result: None }),
    }
}

/// Poll: whether the outcome can be had without waiting. True where there is
/// no pending operation, where its result is here, where it holds no task,
/// and where the task it holds has finished. `task_finished` is read only in
/// the last case.
pub fn typedb_future_is_ready<H>(future: Option<&QueryFuture<H>>, task_finished: bool) -> (ready:
    bool)
    ensures
        ready == match future {
            None => true,
            Some(f) => f.result is Some || f.handle is None || task_finished,
        },
{
    match future {
        None => true,
        Some(f) => {
            if f.result.is_some() {
                return true;
            }
            match &f.handle {
                Some(_) => task_finished,
                None => true,
            }
        },
    }
}

/// Resolve: hands out the outcome, or the task to wait for, and releases the
/// pending operation whatever it held. On an operation that was released
/// before, the step is the failure `Consumed`.
pub fn typedb_future_resolve<H>(future: &mut Option<QueryFuture<H>>) -> (step: ResolveStep<H>)
    ensures
        step == resolve_step(*old(future)),
        *old(future) is None ==> *final(future) is None,
        *old(future) is Some ==> *final(future) == Some(QueryFuture::<H>::spent()),
{
    match future {
        None => ResolveStep::Done(Err(QueryError::NullFuture)),
        Some(f) => {
            if let Some(result) = f.result.take() {
                f.handle = None;
                ResolveStep::Done(result)
            } else if let Some(handle) = f.handle.take() {
                ResolveStep::Join(handle)
            } else {
                ResolveStep::Done(Err(QueryError::Consumed))
            }
        },
    }
}

/// What `resolve` reports once the task was waited for: the task's own
/// result, or, where it could not be joined, a failure with the runtime's
/// text.
pub fn join_outcome(joined: Result<Result<Vec<u8>, QueryError>, String>) -> (result: Result<
    Vec<u8>,
    QueryError,
>)
    ensures
        match joined {
            Ok(inner) => result == inner,
            Err(text) => result matches Err(error) && error@ == Failure::Join(text@),
        },
{
    match joined {
        Ok(inner) => inner,
        Err(text) => Err(QueryError::Join(text)),
    }
}

/// Abort: asks for the cancellation flag to be set and for the task, if one
/// is still held, to be cancelled; releases the pending operation.
pub fn typedb_future_abort<H>(future: &mut Option<QueryFuture<H>>) -> (plan: AbortPlan<H>)
    ensures
        plan == abort_plan(*old(future)),
        *old(future) is Some ==> plan.raise_flag,
        *old(future) is None ==> *final(future) is None,
        *old(future) is Some ==> *final(future) == Some(QueryFuture::<H>::spent()),
{
    match future {
        None => AbortPlan { raise_flag: false, cancel: None },
        Some(f) => {
            let cancel = f.handle.take();
            f.result = None;
            AbortPlan { raise_flag: true, cancel }
        },
    }
}

/// Drop: hands back the task to cancel, if one is still held, and releases
/// the pending operation without reporting its outcome. The cancellation flag
/// is left as it is.
pub fn typedb_future_drop<H>(future: &mut Option<QueryFuture<H>>) -> (cancel: Option<H>)
    ensures
        cancel == match *old(future) {
            None => None,
            Some(f) => f.handle,
        },
        *old(future) is None ==> *final(future) is None,
        *old(future) is Some ==> *final(future) == Some(QueryFuture::<H>::spent()),
{
    match future {
        None => None,
        Some(f) => {
            let cancel = f.handle.take();
            f.result = None;
            cancel
        },
    }
}

/// An abort that comes before the unit of work begins keeps the query from
/// the engine: the abort asks for the flag to be set, and a unit of work that
/// reads the flag as set ends as aborted at its first checkpoint, without
/// sending anything.
pub proof fn lemma_abort_before_start<H>(future: QueryFuture<H>)
    ensures
        abort_plan(Some(future)).raise_flag,
        start_step(abort_plan(Some(future)).raise_flag) == TaskStep::Done(
            Err(QueryError::Aborted),
        ),
        !(start_step(abort_plan(Some(future)).raise_flag) is SendQuery),
{
}

/// A consuming call is detected the second time: on a pending operation that
/// was resolved, aborted or dropped, `resolve` fails with `Consumed`, and
/// `abort` and `drop` find no task to cancel.
pub proof fn lemma_consumed_once<H>()
    ensures
        QueryFuture::<H>::spent().released(),
        QueryFuture::<H>::spent().state() is Released,
        resolve_step(Some(QueryFuture::<H>::spent())) == ResolveStep::<H>::Done(
            Err(QueryError::Consumed),
        ),
        abort_plan(Some(QueryFuture::<H>::spent())).cancel is None,
{
}

/// A token that was claimed is good for nothing more: whatever call comes
/// with it again finds the pending operation that holds nothing, so that
/// `resolve` fails with `Consumed` and `abort` and `drop` cancel no task.
pub proof fn lemma_claimed_once<H>(table: HandleTable<QueryFuture<H>>, token: u64)
    requires
        table.is_retired(token),
    ensures
        claimed(table, token) == Some(QueryFuture::<H>::spent()),
        resolve_step(claimed(table, token)) == ResolveStep::<H>::Done(Err(QueryError::Consumed)),
        abort_plan(claimed(table, token)).cancel is None,
{
    lemma_retired_is_not_live(table, token);
}

/// Of a `resolve` and an `abort` on one running operation, whichever comes
/// first obtains the task, and the other one obtains nothing: the task is
/// handed out once, so it is waited for or cancelled, never both.
pub proof fn lemma_single_winner<H>(future: QueryFuture<H>)
    requires
        future.state() is Running,
    ensures
        resolve_step(Some(future)) is Join,
        abort_plan(Some(QueryFuture::<H>::spent())).cancel is None,
        abort_plan(Some(future)).cancel is Some,
        !(resolve_step(Some(QueryFuture::<H>::spent())) is Join),
{
}

} // verus!
