//! The options of a transaction and of a query, as the caller sets them.

use vstd::prelude::*;

verus! {

/// The kind of a transaction.
#[derive(Clone, Copy, Debug, PartialEq, Eq, Structural)]
pub enum TransactionType {
    Read,
    Write,
    Schema,
}

/// The kind of transaction that a code stands for: 1 for write, 2 for
/// schema, and read for 0 and for every other code.
pub fn to_transaction_type(t: i32) -> (kind: TransactionType)
    ensures
        t == 1 ==> kind == TransactionType::Write,
        t == 2 ==> kind == TransactionType::Schema,
        t != 1 && t != 2 ==> kind == TransactionType::Read,
{
    match t {
        0 => TransactionType::Read,
        1 => TransactionType::Write,
        2 => TransactionType::Schema,
        _ => TransactionType::Read,
    }
}

/// A signed count read as an unsigned one, the way a cast reads it: itself
/// where it is not negative, and two to the sixty-fourth more where it is.
pub open spec fn unsigned_of(value: i64) -> u64 {
    if value >= 0 {
        value as u64
    } else {
        (value + 0x1_0000_0000_0000_0000) as u64
    }
}

/// Reads a signed count as an unsigned one.
pub fn to_unsigned(value: i64) -> (count: u64)
    ensures
        count == unsigned_of(value),
{
    if value >= 0 {
        value as u64
    } else {
        let below: u64 = (-(value + 1)) as u64;
        u64::MAX - below
    }
}

/// The options of a transaction. A timeout that was not set is left to the
/// engine.
#[derive(Clone, Copy, Debug, PartialEq, Eq)]
pub struct TransactionOptions {
    pub transaction_timeout_millis: Option<u64>,
    pub schema_lock_acquire_timeout_millis: Option<u64>,
}

/// The options of a query. An option that was not set is left to the engine.
#[derive(Clone, Copy, Debug, PartialEq, Eq)]
pub struct QueryOptions {
    pub include_instance_types: Option<bool>,
    pub prefetch_size: Option<u64>,
}

/// Options with no timeout set.
pub fn typedb_transaction_options_new() -> (options: TransactionOptions)
    ensures
        options.transaction_timeout_millis is None,
        options.schema_lock_acquire_timeout_millis is None,
{
    TransactionOptions { transaction_timeout_millis: None, schema_lock_acquire_timeout_millis: None }
}

/// Sets the timeout of the transaction, in milliseconds.
pub fn typedb_transaction_options_set_timeout(options: &mut TransactionOptions, timeout_millis: i64)
    ensures
        final(options).transaction_timeout_millis == Some(unsigned_of(timeout_millis)),
        final(options).schema_lock_acquire_timeout_millis == old(
            options,
        ).schema_lock_acquire_timeout_millis,
{
    options.transaction_timeout_millis = Some(to_unsigned(timeout_millis));
}

/// Sets the timeout for acquiring the schema lock, in milliseconds.
pub fn typedb_transaction_options_set_schema_lock_timeout(
    options: &mut TransactionOptions,
    timeout_millis: i64,
)
    ensures
        final(options).schema_lock_acquire_timeout_millis == Some(unsigned_of(timeout_millis)),
        final(options).transaction_timeout_millis == old(options).transaction_timeout_millis,
{
    options.schema_lock_acquire_timeout_millis = Some(to_unsigned(timeout_millis));
}

/// Options with nothing set.
pub fn typedb_query_options_new() -> (options: QueryOptions)
    ensures
        options.include_instance_types is None,
        options.prefetch_size is None,
{
    QueryOptions { include_instance_types: None, prefetch_size: None }
}

/// Sets whether answers name the types of their instances.
pub fn typedb_query_options_set_include_instance_types(options: &mut QueryOptions, enabled: bool)
    ensures
        final(options).include_instance_types == Some(enabled),
        final(options).prefetch_size == old(options).prefetch_size,
{
    options.include_instance_types = Some(enabled);
}

/// Sets how many answers are fetched ahead.
pub fn typedb_query_options_set_prefetch_size(options: &mut QueryOptions, size: i64)
    ensures
        final(options).prefetch_size == Some(unsigned_of(size)),
        final(options).include_instance_types == old(options).include_instance_types,
{
    options.prefetch_size = Some(to_unsigned(size));
}

} // verus!
