use typedb_go_ffi::error::QueryError;
use typedb_go_ffi::future::{
    claim, register, typedb_future_abort, typedb_future_drop, typedb_future_is_ready,
    typedb_future_resolve, QueryFuture, ResolveStep,
};
use typedb_go_ffi::handles::{HandleTable, MAX_SLOTS, SPAN};

#[test]
fn token_names_its_value_until_it_is_taken() {
    let mut table: HandleTable<String> = HandleTable::new();
    let token = table.insert("a".to_owned()).unwrap();
    assert_ne!(token, 0);
    assert_eq!(table.get(token), Some(&"a".to_owned()));
    assert_eq!(table.take(token), Some("a".to_owned()));
    assert_eq!(table.get(token), None);
    assert_eq!(table.take(token), None);
}

#[test]
fn first_tokens_are_one_and_two() {
    let mut table: HandleTable<u8> = HandleTable::new();
    assert_eq!(table.insert(10), Ok(1));
    assert_eq!(table.insert(20), Ok(2));
    assert_eq!(table.get(1), Some(&10));
    assert_eq!(table.get(2), Some(&20));
}

#[test]
fn slot_is_used_again_under_a_new_token() {
    let mut table: HandleTable<u8> = HandleTable::new();
    let first = table.insert(10).unwrap();
    assert_eq!(table.take(first), Some(10));
    let second = table.insert(20).unwrap();
    assert_eq!(second, SPAN + 1);
    assert_ne!(second, first);
    assert_eq!(table.get(first), None);
    assert_eq!(table.take(first), None);
    assert_eq!(table.get(second), Some(&20));
    assert_eq!(table.take(second), Some(20));
    let third = table.insert(30).unwrap();
    assert_eq!(third, 2 * SPAN + 1);
    assert_eq!(table.take(second), None);
    assert_eq!(table.take(first), None);
    assert_eq!(table.take(third), Some(30));
}

#[test]
fn taking_one_value_leaves_the_others() {
    let mut table: HandleTable<u8> = HandleTable::new();
    let a = table.insert(1).unwrap();
    let b = table.insert(2).unwrap();
    let c = table.insert(3).unwrap();
    assert_eq!(table.take(b), Some(2));
    assert_eq!(table.get(a), Some(&1));
    assert_eq!(table.get(c), Some(&3));
    let d = table.insert(4).unwrap();
    assert_eq!(table.get(a), Some(&1));
    assert_eq!(table.get(c), Some(&3));
    assert_eq!(table.get(d), Some(&4));
    assert_eq!(table.get(b), None);
}

#[test]
fn tokens_that_were_never_given_out_name_nothing() {
    let mut table: HandleTable<u8> = HandleTable::new();
    let token = table.insert(1).unwrap();
    assert_eq!(table.get(0), None);
    assert_eq!(table.take(0), None);
    assert_eq!(table.get(token + 1), None);
    assert_eq!(table.get(token + SPAN), None);
    assert_eq!(table.get(SPAN), None);
    assert_eq!(table.take(u64::MAX), None);
    assert_eq!(table.take(0x7f3a_5c00_1234_5678), None);
    assert_eq!(table.get(token), Some(&1));
    assert_eq!(MAX_SLOTS, 0xFFFF_FFFF);
}

#[test]
fn registered_future_is_found_by_its_token() {
    let mut table: HandleTable<QueryFuture<u32>> = HandleTable::new();
    let token = register(&mut table, 7).unwrap();
    assert_ne!(token, 0);
    assert!(!typedb_future_is_ready(table.get(token), false));
    assert!(typedb_future_is_ready(table.get(token), true));
    let mut slot = claim(&mut table, token);
    assert_eq!(slot, Some(QueryFuture { handle: Some(7), result: None }));
    assert_eq!(typedb_future_resolve(&mut slot), ResolveStep::Join(7));
}

#[test]
fn second_resolve_on_the_same_token_is_detected() {
    let mut table: HandleTable<QueryFuture<u32>> = HandleTable::new();
    let token = register(&mut table, 7).unwrap();
    let mut first = claim(&mut table, token);
    assert_eq!(typedb_future_resolve(&mut first), ResolveStep::Join(7));
    let mut second = claim(&mut table, token);
    assert_eq!(second, Some(QueryFuture { handle: None, result: None }));
    assert_eq!(typedb_future_resolve(&mut second), ResolveStep::Done(Err(QueryError::Consumed)));
    assert!(typedb_future_is_ready(table.get(token), false));
    let other = register(&mut table, 8).unwrap();
    let mut third = claim(&mut table, token);
    assert_eq!(typedb_future_resolve(&mut third), ResolveStep::Done(Err(QueryError::Consumed)));
    assert_eq!(table.get(other), Some(&QueryFuture { handle: Some(8), result: None }));
}

#[test]
fn abort_and_resolve_on_one_token_have_one_winner() {
    let mut table: HandleTable<QueryFuture<u32>> = HandleTable::new();
    let token = register(&mut table, 7).unwrap();
    let mut for_abort = claim(&mut table, token);
    let mut for_resolve = claim(&mut table, token);
    let plan = typedb_future_abort(&mut for_abort);
    let step = typedb_future_resolve(&mut for_resolve);
    assert_eq!(plan.cancel, Some(7));
    assert_eq!(step, ResolveStep::Done(Err(QueryError::Consumed)));

    let token = register(&mut table, 9).unwrap();
    let mut for_resolve = claim(&mut table, token);
    let mut for_abort = claim(&mut table, token);
    let mut for_drop = claim(&mut table, token);
    assert_eq!(typedb_future_resolve(&mut for_resolve), ResolveStep::Join(9));
    assert_eq!(typedb_future_abort(&mut for_abort).cancel, None);
    assert_eq!(typedb_future_drop(&mut for_drop), None);
}

#[test]
fn null_token_is_no_future() {
    let mut table: HandleTable<QueryFuture<u32>> = HandleTable::new();
    let token = register(&mut table, 7).unwrap();
    let mut slot = claim(&mut table, 0);
    assert_eq!(slot, None);
    assert_eq!(typedb_future_resolve(&mut slot), ResolveStep::Done(Err(QueryError::NullFuture)));
    assert!(typedb_future_is_ready(table.get(0), false));
    assert_eq!(table.get(token), Some(&QueryFuture { handle: Some(7), result: None }));
    assert_eq!(QueryError::TableFull.message(), "too many pending queries");
}
