//! Texts that only the engine's driver can give: the display forms of its
//! fixed-point decimals and its durations, and its message for a row that is
//! shorter than its header.
//!
//! Each of them depends on the numbers handed in and on nothing else, so each
//! gets a name, and the functions below are trusted to return what the name
//! stands for. How the driver spells them is its own, versioned business.

use vstd::prelude::*;

verus! {

/// One whole, in units of the fractional part of a decimal: ten to the
/// nineteenth.
pub const DECIMAL_DENOMINATOR: u64 = 10_000_000_000_000_000_000;

/// How the driver displays the decimal with this integer part and this
/// fractional part.
pub uninterp spec fn decimal_rendering(integer: i64, fractional: u64) -> Seq<char>;

/// How the driver displays the duration of so many months, days and
/// nanoseconds.
pub uninterp spec fn duration_rendering(months: u32, days: u32, nanos: u64) -> Seq<char>;

/// The driver's message for a row that has no cell at this index.
pub uninterp spec fn row_index_error_rendering(index: usize) -> Seq<char>;

/// `Display` of `typedb_driver::concept::value::Decimal`. The fractional part
/// has to be below one whole: the driver asserts it when it builds the value.
#[verifier::external_body]
pub(crate) fn decimal_text(integer: i64, fractional: u64) -> (text: String)
    requires
        fractional < DECIMAL_DENOMINATOR,
    ensures
        text@ == decimal_rendering(integer, fractional),
{
    typedb_driver::concept::value::Decimal::new(integer, fractional).to_string()
}

/// `Display` of `typedb_driver::concept::value::Duration`.
#[verifier::external_body]
pub(crate) fn duration_text(months: u32, days: u32, nanos: u64) -> (text: String)
    ensures
        text@ == duration_rendering(months, days, nanos),
{
    typedb_driver::concept::value::Duration::new(months, days, nanos).to_string()
}

/// `Display` of the `typedb_driver::Error` that `ConceptRow::get_index` returns
/// for an index outside the row.
#[verifier::external_body]
pub(crate) fn row_index_error_text(index: usize) -> (text: String)
    ensures
        text@ == row_index_error_rendering(index),
{
    typedb_driver::Error::from(typedb_driver::error::ConceptError::UnavailableRowIndex { index })
        .to_string()
}

} // verus!
