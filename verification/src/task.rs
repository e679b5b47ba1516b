//! The execution driver: what happens to the outcome of a round trip to the
//! engine, on the calling thread or inside a scheduled unit of work.
//!
//! The round trip itself is not made here. The caller makes it and hands in
//! what came back; the functions below decide everything else, checkpoint by
//! checkpoint.

use vstd::prelude::*;
use crate::answer::{collect_answer_to_msgpack, encodes, Answer};
use crate::error::{Failure, QueryError};

verus! {

/// The number of workers in the pool that runs the units of work.
pub const WORKER_THREADS: usize = 2;

/// What a unit of work does next.
#[derive(Debug, PartialEq, Eq)]
pub enum TaskStep {
    /// Send the query to the engine.
    SendQuery,
    /// Stop with this result, without contacting the engine.
    Done(Result<Vec<u8>, QueryError>),
}

/// Whether `result` is what a round trip's outcome comes to: the engine's
/// failure, or the serialized answer.
pub open spec fn delivers(
    outcome: Result<Answer, String>,
    result: Result<Vec<u8>, QueryError>,
) -> bool {
    match outcome {
        Err(text) => result matches Err(error) && error@ == Failure::Engine(text@),
        Ok(answer) => encodes(answer, result),
    }
}

/// The synchronous path: turns the outcome of the round trip into the buffer
/// for the caller. An answer without payload gives the buffer of length zero
/// and no failure, and nothing else gives that buffer.
pub fn typedb_transaction_query(outcome: Result<Answer, String>) -> (result: Result<
    Vec<u8>,
    QueryError,
>)
    ensures
        delivers(outcome, result),
        outcome matches Ok(Answer::Empty) <==> (result matches Ok(bytes) && bytes@.len() == 0),
{
    match outcome {
        Ok(answer) => collect_answer_to_msgpack(answer),
        Err(text) => Err(QueryError::Engine(text)),
    }
}

/// Submission: a unit of work is scheduled only for a transaction and a query
/// text that are both there.
pub fn typedb_transaction_query_async(has_transaction: bool, has_query: bool) -> (accepted: Result<
    (),
    QueryError,
>)
    ensures
        has_transaction && has_query <==> accepted is Ok,
        accepted matches Err(error) ==> error@ == Failure::NullArgument,
{
    if !has_transaction || !has_query {
        Err(QueryError::NullArgument)
    } else {
        Ok(())
    }
}

/// What a unit of work does first, given the cancellation flag as it reads
/// it.
pub open spec fn start_step(aborted: bool) -> TaskStep {
    if aborted {
        TaskStep::Done(Err(QueryError::Aborted))
    } else {
        TaskStep::SendQuery
    }
}

/// The first checkpoint, before anything is sent: with the cancellation flag
/// set the unit of work ends as aborted and the engine is never contacted.
pub fn task_start(aborted: bool) -> (step: TaskStep)
    ensures
        step == start_step(aborted),
        aborted ==> (step matches TaskStep::Done(Err(error)) && error@ == Failure::Aborted),
        !aborted ==> step is SendQuery,
{
    if aborted {
        TaskStep::Done(Err(QueryError::Aborted))
    } else {
        TaskStep::SendQuery
    }
}

/// The second checkpoint, after the round trip and before the answer is
/// drained. A failure of the engine is reported as it is. Otherwise, with the
/// cancellation flag set, the answer is discarded and the unit of work ends as
/// aborted; without it, the answer goes on to be drained and serialized.
/// `A` is the answer as it came back, not yet drained.
pub fn task_checkpoint<A>(outcome: Result<A, String>, aborted: bool) -> (passed: Result<
    A,
    QueryError,
>)
    ensures
        match outcome {
            Err(text) => passed matches Err(error) && error@ == Failure::Engine(text@),
            Ok(answer) => if aborted {
                passed matches Err(error) && error@ == Failure::Aborted
            } else {
                passed == Ok::<A, QueryError>(answer)
            },
        },
{
    match outcome {
        Err(text) => Err(QueryError::Engine(text)),
        Ok(answer) => {
            if aborted {
                Err(QueryError::Aborted)
            } else {
                Ok(answer)
            }
        },
    }
}

/// The end of a unit of work: serializes the answer that passed the second
/// checkpoint, or reports why none did. An answer without payload gives the
/// buffer of length zero and no failure, and nothing else gives that buffer.
pub fn task_finish(passed: Result<Answer, QueryError>) -> (result: Result<Vec<u8>, QueryError>)
    ensures
        match passed {
            Err(error) => result == Err::<Vec<u8>, QueryError>(error),
            Ok(answer) => encodes(answer, result),
        },
        passed matches Ok(Answer::Empty) <==> (result matches Ok(bytes) && bytes@.len() == 0),
{
    match passed {
        Err(error) => Err(error),
        Ok(answer) => collect_answer_to_msgpack(answer),
    }
}

/// What the unit of work reports once its blocking part was joined: that
/// part's result, or, where it could not be joined, a failure with the
/// runtime's text.
pub fn task_joined(joined: Result<Result<Vec<u8>, QueryError>, String>) -> (result: Result<
    Vec<u8>,
    QueryError,
>)
    ensures
        match joined {
            Ok(inner) => result == inner,
            Err(text) => result matches Err(error) && error@ == Failure::TaskJoin(text@),
        },
{
    match joined {
        Ok(inner) => inner,
        Err(text) => Err(QueryError::TaskJoin(text)),
    }
}

} // verus!
