//! The failures of a query, and the text by which each crosses the boundary.

use vstd::prelude::*;
use crate::engine::{row_index_error_rendering, row_index_error_text};
use crate::text::{contains_nul, has_nul};

verus! {

/// Why a query has no result.
#[derive(Clone, Debug, PartialEq, Eq)]
pub enum QueryError {
    /// The engine reported a failure; this is its text.
    Engine(String),
    /// A row has no cell at this index, though its header has a column there.
    UnavailableRowIndex(usize),
    /// A document could not be converted into a value tree; this is the
    /// parser's text.
    Document(String),
    /// The answer could not be serialized; this is the serializer's text.
    Encode(String),
    /// The query was cancelled.
    Aborted,
    /// The blocking part of the unit of work could not be joined.
    TaskJoin(String),
    /// The unit of work could not be joined.
    Join(String),
    /// The pending operation was resolved, aborted or dropped before.
    Consumed,
    /// No pending operation was handed in.
    NullFuture,
    /// No transaction, or no query text, was handed in.
    NullArgument,
    /// The table of pending operations has no slot left.
    TableFull,
}

/// A failure, as a mathematical value.
pub enum Failure {
    Engine(Seq<char>),
    UnavailableRowIndex(usize),
    Document(Seq<char>),
    Encode(Seq<char>),
    Aborted,
    TaskJoin(Seq<char>),
    Join(Seq<char>),
    Consumed,
    NullFuture,
    NullArgument,
    TableFull,
}

impl View for QueryError {
    type V = Failure;

    open spec fn view(&self) -> Failure {
        match *self {
            QueryError::Engine(text) => Failure::Engine(text@),
            QueryError::UnavailableRowIndex(index) => Failure::UnavailableRowIndex(index),
            QueryError::Document(text) => Failure::Document(text@),
            QueryError::Encode(text) => Failure::Encode(text@),
            QueryError::Aborted => Failure::Aborted,
            QueryError::TaskJoin(text) => Failure::TaskJoin(text@),
            QueryError::Join(text) => Failure::Join(text@),
            QueryError::Consumed => Failure::Consumed,
            QueryError::NullFuture => Failure::NullFuture,
            QueryError::NullArgument => Failure::NullArgument,
            QueryError::TableFull => Failure::TableFull,
        }
    }
}

/// The text of a failure.
pub open spec fn failure_message(failure: Failure) -> Seq<char> {
    match failure {
        Failure::Engine(text) => text,
        Failure::UnavailableRowIndex(index) => row_index_error_rendering(index),
        Failure::Document(text) => "document conversion error: "@ + text,
        Failure::Encode(text) => "msgpack encode error: "@ + text,
        Failure::Aborted => "query aborted"@,
        Failure::TaskJoin(text) => "task join error: "@ + text,
        Failure::Join(text) => "join error: "@ + text,
        Failure::Consumed => "future already consumed"@,
        Failure::NullFuture => "null future pointer"@,
        Failure::NullArgument => "null transaction or query pointer"@,
        Failure::TableFull => "too many pending queries"@,
    }
}

impl QueryError {
    /// The text that reports this failure to the caller.
    pub fn message(&self) -> (text: String)
        ensures
            text@ == failure_message(self@),
    {
        match self {
            QueryError::Engine(text) => text.clone(),
            QueryError::UnavailableRowIndex(index) => row_index_error_text(*index),
            QueryError::Document(text) => String::from_str("document conversion error: ").concat(
                text.as_str(),
            ),
            QueryError::Encode(text) => String::from_str("msgpack encode error: ").concat(
                text.as_str(),
            ),
            QueryError::Aborted => String::from_str("query aborted"),
            QueryError::TaskJoin(text) => String::from_str("task join error: ").concat(
                text.as_str(),
            ),
            QueryError::Join(text) => String::from_str("join error: ").concat(text.as_str()),
            QueryError::Consumed => String::from_str("future already consumed"),
            QueryError::NullFuture => String::from_str("null future pointer"),
            QueryError::NullArgument => String::from_str("null transaction or query pointer"),
            QueryError::TableFull => String::from_str("too many pending queries"),
        }
    }
}

/// What is written into the slot that the caller gave for an error text.
#[derive(Clone, Debug, PartialEq, Eq)]
pub enum ErrorWrite {
    /// The caller gave no slot: the failure is dropped.
    Nothing,
    /// The slot gets this text, which the caller releases.
    Text(String),
    /// The slot gets the null address: the text has a zero byte inside.
    Null,
}

/// Reports a failure through the caller's slot, if there is one.
pub fn set_error(has_slot: bool, error: &QueryError) -> (write: ErrorWrite)
    ensures
        !has_slot ==> write is Nothing,
        has_slot && has_nul(failure_message(error@)) ==> write is Null,
        has_slot && !has_nul(failure_message(error@)) ==> (write matches ErrorWrite::Text(text)
            && text@ == failure_message(error@)),
{
    if !has_slot {
        return ErrorWrite::Nothing;
    }
    let msg = error.message();
    if contains_nul(msg.as_str()) {
        ErrorWrite::Null
    } else {
        ErrorWrite::Text(msg)
    }
}

} // verus!
