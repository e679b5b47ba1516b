use typedb_go_ffi::answer::Answer;
use typedb_go_ffi::buffer::{hand_over, typedb_free_bytes, vec_to_raw, ByteBuffer};
use typedb_go_ffi::catalog::{names_json, typedb_databases_all};
use typedb_go_ffi::concept::{Concept, ConceptValue};
use typedb_go_ffi::error::{set_error, ErrorWrite, QueryError};
use typedb_go_ffi::future::{
    join_outcome, typedb_future_abort, typedb_future_drop, typedb_future_is_ready,
    typedb_future_resolve, AbortPlan, QueryFuture, ResolveStep,
};
use typedb_go_ffi::options::{
    to_transaction_type, to_unsigned, typedb_query_options_new,
    typedb_query_options_set_include_instance_types, typedb_query_options_set_prefetch_size,
    typedb_transaction_options_new, typedb_transaction_options_set_schema_lock_timeout,
    typedb_transaction_options_set_timeout, TransactionType,
};
use typedb_go_ffi::task::{
    task_checkpoint, task_finish, task_joined, task_start, typedb_transaction_query,
    typedb_transaction_query_async, TaskStep, WORKER_THREADS,
};

fn one_row() -> Answer {
    Answer::RowStream {
        column_names: vec!["a".to_owned()],
        rows: vec![Ok(vec![Some(Concept::Value(ConceptValue::Boolean(true)))])],
    }
}

#[test]
fn no_payload_is_the_empty_buffer_on_both_paths() {
    assert_eq!(typedb_transaction_query(Ok(Answer::Empty)), Ok(vec![]));
    let passed = task_checkpoint(Ok(Answer::Empty), false);
    assert_eq!(passed, Ok(Answer::Empty));
    let finished = task_joined(Ok(task_finish(passed)));
    assert_eq!(finished, Ok(vec![]));
    let resolved = join_outcome(Ok(finished));
    assert_eq!(resolved, Ok(vec![]));
    assert_eq!(hand_over(resolved), (ByteBuffer { data: None, len: 0 }, None));
}

#[test]
fn stream_without_items_is_an_array_on_both_paths() {
    let empty_rows = || Answer::RowStream { column_names: vec!["a".to_owned()], rows: vec![] };
    assert_eq!(typedb_transaction_query(Ok(empty_rows())), Ok(vec![0x90]));
    assert_eq!(task_finish(task_checkpoint(Ok(empty_rows()), false)), Ok(vec![0x90]));
    assert_eq!(
        hand_over(Ok(vec![0x90])),
        (ByteBuffer { data: Some(vec![0x90]), len: 1 }, None)
    );
}

#[test]
fn synchronous_query_serializes_the_answer() {
    assert_eq!(typedb_transaction_query(Ok(one_row())), Ok(vec![0x91, 0x81, 0xa1, 0x61, 0xc3]));
}

#[test]
fn synchronous_query_reports_the_engine_failure() {
    assert_eq!(
        typedb_transaction_query(Err("[QRY1] no such type".to_owned())),
        Err(QueryError::Engine("[QRY1] no such type".to_owned()))
    );
}

#[test]
fn submission_needs_a_transaction_and_a_query() {
    assert_eq!(typedb_transaction_query_async(true, true), Ok(()));
    assert_eq!(typedb_transaction_query_async(false, true), Err(QueryError::NullArgument));
    assert_eq!(typedb_transaction_query_async(true, false), Err(QueryError::NullArgument));
    assert_eq!(typedb_transaction_query_async(false, false), Err(QueryError::NullArgument));
}

#[test]
fn abort_before_start_sends_nothing() {
    let mut slot = Some(QueryFuture::new(7u32));
    let plan = typedb_future_abort(&mut slot);
    assert!(plan.raise_flag);
    assert_eq!(task_start(plan.raise_flag), TaskStep::Done(Err(QueryError::Aborted)));
}

#[test]
fn start_without_abort_sends_the_query() {
    assert_eq!(task_start(false), TaskStep::SendQuery);
}

#[test]
fn abort_after_the_round_trip_discards_the_answer() {
    assert_eq!(task_checkpoint(Ok(one_row()), true), Err(QueryError::Aborted));
    assert_eq!(task_checkpoint(Ok(Answer::Empty), true), Err(QueryError::Aborted));
    assert_eq!(task_finish(task_checkpoint(Ok(one_row()), true)), Err(QueryError::Aborted));
}

#[test]
fn checkpoint_lets_the_answer_pass_when_not_aborted() {
    assert_eq!(task_checkpoint(Ok(one_row()), false), Ok(one_row()));
    assert_eq!(task_checkpoint(Ok(17u8), false), Ok(17u8));
}

#[test]
fn finish_serializes_what_passed() {
    assert_eq!(task_finish(Ok(one_row())), Ok(vec![0x91, 0x81, 0xa1, 0x61, 0xc3]));
    assert_eq!(task_finish(Err(QueryError::Aborted)), Err(QueryError::Aborted));
    assert_eq!(
        task_finish(Err(QueryError::Engine("e".to_owned()))),
        Err(QueryError::Engine("e".to_owned()))
    );
}

#[test]
fn engine_failure_is_reported_even_when_aborted() {
    assert_eq!(
        task_checkpoint::<Answer>(Err("connection lost".to_owned()), true),
        Err(QueryError::Engine("connection lost".to_owned()))
    );
    assert_eq!(
        task_checkpoint::<Answer>(Err("connection lost".to_owned()), false),
        Err(QueryError::Engine("connection lost".to_owned()))
    );
}

#[test]
fn pool_has_at_least_two_workers() {
    assert_eq!(WORKER_THREADS, 2);
}

#[test]
fn joined_task_reports_its_own_result() {
    assert_eq!(task_joined(Ok(Ok(vec![1, 2, 3]))), Ok(vec![1, 2, 3]));
    assert_eq!(task_joined(Ok(Err(QueryError::Aborted))), Err(QueryError::Aborted));
    assert_eq!(
        task_joined(Err("task 3 panicked".to_owned())),
        Err(QueryError::TaskJoin("task 3 panicked".to_owned()))
    );
}

#[test]
fn join_outcome_reports_the_tasks_result() {
    assert_eq!(join_outcome(Ok(Ok(vec![9]))), Ok(vec![9]));
    assert_eq!(
        join_outcome(Ok(Err(QueryError::Engine("e".to_owned())))),
        Err(QueryError::Engine("e".to_owned()))
    );
    assert_eq!(
        join_outcome(Err("task 3 was cancelled".to_owned())),
        Err(QueryError::Join("task 3 was cancelled".to_owned()))
    );
}

#[test]
fn new_future_holds_its_task() {
    let future = QueryFuture::new(7u32);
    assert_eq!(future.handle, Some(7));
    assert_eq!(future.result, None);
}

#[test]
fn poll_is_true_unless_a_held_task_is_unfinished() {
    assert!(typedb_future_is_ready::<u32>(None, false));
    assert!(typedb_future_is_ready::<u32>(None, true));
    let running = QueryFuture::new(7u32);
    assert!(!typedb_future_is_ready(Some(&running), false));
    assert!(typedb_future_is_ready(Some(&running), true));
    let completed = QueryFuture { handle: Some(7u32), result: Some(Ok(vec![1])) };
    assert!(typedb_future_is_ready(Some(&completed), false));
    let released: QueryFuture<u32> = QueryFuture { handle: None, result: None };
    assert!(typedb_future_is_ready(Some(&released), false));
}

#[test]
fn resolve_hands_out_the_task_once() {
    let mut slot = Some(QueryFuture::new(7u32));
    assert_eq!(typedb_future_resolve(&mut slot), ResolveStep::Join(7));
    assert_eq!(slot, Some(QueryFuture { handle: None, result: None }));
    assert_eq!(typedb_future_resolve(&mut slot), ResolveStep::Done(Err(QueryError::Consumed)));
    assert_eq!(typedb_future_resolve(&mut slot), ResolveStep::Done(Err(QueryError::Consumed)));
}

#[test]
fn resolve_prefers_a_result_that_is_here() {
    let mut slot = Some(QueryFuture { handle: Some(7u32), result: Some(Ok(vec![4, 2])) });
    assert_eq!(typedb_future_resolve(&mut slot), ResolveStep::Done(Ok(vec![4, 2])));
    assert_eq!(slot, Some(QueryFuture { handle: None, result: None }));
    assert_eq!(typedb_future_resolve(&mut slot), ResolveStep::Done(Err(QueryError::Consumed)));
}

#[test]
fn resolve_without_a_future_is_a_failure() {
    let mut slot: Option<QueryFuture<u32>> = None;
    assert_eq!(typedb_future_resolve(&mut slot), ResolveStep::Done(Err(QueryError::NullFuture)));
    assert_eq!(slot, None);
}

#[test]
fn abort_cancels_the_task_and_raises_the_flag() {
    let mut slot = Some(QueryFuture::new(7u32));
    assert_eq!(typedb_future_abort(&mut slot), AbortPlan { raise_flag: true, cancel: Some(7) });
    assert_eq!(slot, Some(QueryFuture { handle: None, result: None }));
    assert_eq!(typedb_future_abort(&mut slot), AbortPlan { raise_flag: true, cancel: None });
    let mut none: Option<QueryFuture<u32>> = None;
    assert_eq!(typedb_future_abort(&mut none), AbortPlan { raise_flag: false, cancel: None });
}

#[test]
fn drop_cancels_the_task_without_reporting() {
    let mut slot = Some(QueryFuture::new(7u32));
    assert_eq!(typedb_future_drop(&mut slot), Some(7));
    assert_eq!(slot, Some(QueryFuture { handle: None, result: None }));
    assert_eq!(typedb_future_drop(&mut slot), None);
    let mut none: Option<QueryFuture<u32>> = None;
    assert_eq!(typedb_future_drop(&mut none), None);
}

#[test]
fn resolve_then_abort_has_one_winner() {
    let mut slot = Some(QueryFuture::new(7u32));
    let step = typedb_future_resolve(&mut slot);
    let plan = typedb_future_abort(&mut slot);
    assert_eq!(step, ResolveStep::Join(7));
    assert_eq!(plan.cancel, None);
}

#[test]
fn abort_then_resolve_has_one_winner() {
    let mut slot = Some(QueryFuture::new(7u32));
    let plan = typedb_future_abort(&mut slot);
    let step = typedb_future_resolve(&mut slot);
    assert_eq!(plan.cancel, Some(7));
    assert_eq!(step, ResolveStep::Done(Err(QueryError::Consumed)));
}

#[test]
fn every_failure_has_its_text() {
    assert_eq!(QueryError::Engine("[CXN1] refused".to_owned()).message(), "[CXN1] refused");
    assert_eq!(QueryError::Encode("bad".to_owned()).message(), "msgpack encode error: bad");
    assert_eq!(
        QueryError::Document("bad".to_owned()).message(),
        "document conversion error: bad"
    );
    assert_eq!(QueryError::Aborted.message(), "query aborted");
    assert_eq!(QueryError::TaskJoin("gone".to_owned()).message(), "task join error: gone");
    assert_eq!(QueryError::Join("gone".to_owned()).message(), "join error: gone");
    assert_eq!(QueryError::Consumed.message(), "future already consumed");
    assert_eq!(QueryError::NullFuture.message(), "null future pointer");
    assert_eq!(QueryError::NullArgument.message(), "null transaction or query pointer");
    assert!(QueryError::UnavailableRowIndex(12).message().contains("index '12'"));
}

#[test]
fn failure_without_a_slot_is_dropped() {
    assert_eq!(set_error(false, &QueryError::Aborted), ErrorWrite::Nothing);
}

#[test]
fn failure_with_a_slot_is_written_as_text() {
    assert_eq!(set_error(true, &QueryError::Aborted), ErrorWrite::Text("query aborted".to_owned()));
    assert_eq!(
        set_error(true, &QueryError::Engine("no".to_owned())),
        ErrorWrite::Text("no".to_owned())
    );
}

#[test]
fn failure_text_with_a_zero_byte_is_written_as_null() {
    assert_eq!(set_error(true, &QueryError::Engine("n\0o".to_owned())), ErrorWrite::Null);
    assert_eq!(set_error(false, &QueryError::Engine("n\0o".to_owned())), ErrorWrite::Nothing);
}

#[test]
fn bytes_go_out_with_their_length() {
    assert_eq!(vec_to_raw(vec![]), ByteBuffer { data: None, len: 0 });
    assert_eq!(vec_to_raw(vec![5]), ByteBuffer { data: Some(vec![5]), len: 1 });
    assert_eq!(vec_to_raw(vec![1, 2, 3]), ByteBuffer { data: Some(vec![1, 2, 3]), len: 3 });
    assert_eq!(ByteBuffer::null(), ByteBuffer { data: None, len: 0 });
}

#[test]
fn result_goes_out_as_bytes_or_as_failure() {
    assert_eq!(hand_over(Ok(vec![1, 2])), (ByteBuffer { data: Some(vec![1, 2]), len: 2 }, None));
    assert_eq!(hand_over(Ok(vec![])), (ByteBuffer { data: None, len: 0 }, None));
    assert_eq!(
        hand_over(Err(QueryError::Consumed)),
        (ByteBuffer { data: None, len: 0 }, Some(QueryError::Consumed))
    );
}

#[test]
fn release_frees_only_an_allocation() {
    assert!(typedb_free_bytes(false, 3));
    assert!(!typedb_free_bytes(true, 3));
    assert!(!typedb_free_bytes(false, 0));
    assert!(!typedb_free_bytes(true, 0));
    let handed = vec_to_raw(vec![1, 2, 3]);
    assert!(typedb_free_bytes(handed.data.is_none(), handed.len));
    let handed = vec_to_raw(vec![]);
    assert!(!typedb_free_bytes(handed.data.is_none(), handed.len));
}

#[test]
fn transaction_type_codes() {
    assert_eq!(to_transaction_type(0), TransactionType::Read);
    assert_eq!(to_transaction_type(1), TransactionType::Write);
    assert_eq!(to_transaction_type(2), TransactionType::Schema);
    assert_eq!(to_transaction_type(3), TransactionType::Read);
    assert_eq!(to_transaction_type(-1), TransactionType::Read);
    assert_eq!(to_transaction_type(i32::MAX), TransactionType::Read);
    assert_eq!(to_transaction_type(i32::MIN), TransactionType::Read);
}

#[test]
fn signed_counts_are_read_as_a_cast_reads_them() {
    assert_eq!(to_unsigned(0), 0);
    assert_eq!(to_unsigned(1500), 1500);
    assert_eq!(to_unsigned(i64::MAX), i64::MAX as u64);
    assert_eq!(to_unsigned(-1), u64::MAX);
    assert_eq!(to_unsigned(-2), u64::MAX - 1);
    assert_eq!(to_unsigned(i64::MIN), i64::MIN as u64);
    assert_eq!(to_unsigned(i64::MIN), 1u64 << 63);
}

#[test]
fn transaction_options_are_set_one_by_one() {
    let mut options = typedb_transaction_options_new();
    assert_eq!(options.transaction_timeout_millis, None);
    assert_eq!(options.schema_lock_acquire_timeout_millis, None);
    typedb_transaction_options_set_timeout(&mut options, 30_000);
    assert_eq!(options.transaction_timeout_millis, Some(30_000));
    assert_eq!(options.schema_lock_acquire_timeout_millis, None);
    typedb_transaction_options_set_schema_lock_timeout(&mut options, -1);
    assert_eq!(options.transaction_timeout_millis, Some(30_000));
    assert_eq!(options.schema_lock_acquire_timeout_millis, Some(u64::MAX));
}

#[test]
fn query_options_are_set_one_by_one() {
    let mut options = typedb_query_options_new();
    assert_eq!(options.include_instance_types, None);
    assert_eq!(options.prefetch_size, None);
    typedb_query_options_set_prefetch_size(&mut options, 64);
    assert_eq!(options.prefetch_size, Some(64));
    assert_eq!(options.include_instance_types, None);
    typedb_query_options_set_include_instance_types(&mut options, false);
    assert_eq!(options.include_instance_types, Some(false));
    assert_eq!(options.prefetch_size, Some(64));
}

#[test]
fn database_names_are_a_json_array() {
    let listing = Ok(vec!["db1".to_owned(), "db \"2\"".to_owned()]);
    assert_eq!(typedb_databases_all(listing), Ok("[\"db1\",\"db \\\"2\\\"\"]".to_owned()));
    assert_eq!(typedb_databases_all(Ok(vec![])), Ok("[]".to_owned()));
}

#[test]
fn names_that_cannot_be_written_give_the_empty_array() {
    let failed = serde_json::from_str::<String>("{").map(|_| String::new());
    assert!(failed.is_err());
    assert_eq!(names_json(failed), "[]");
    assert_eq!(names_json(Ok("[\"a\"]".to_owned())), "[\"a\"]");
}

#[test]
fn failed_listing_is_the_engine_failure() {
    assert_eq!(
        typedb_databases_all(Err("unreachable".to_owned())),
        Err(QueryError::Engine("unreachable".to_owned()))
    );
}
