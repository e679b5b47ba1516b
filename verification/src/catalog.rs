//! The database catalog: the one answer of it that is encoded here, the list
//! of database names.

use vstd::prelude::*;
use crate::error::{Failure, QueryError};

verus! {

/// What `serde_json::to_string` makes of a list of names: the text of a JSON
/// array of strings, or `None` where it reports an error.
pub uninterp spec fn json_text_of_names(names: Seq<Seq<char>>) -> Option<Seq<char>>;

/// The names as texts.
pub open spec fn name_texts(names: Seq<String>) -> Seq<Seq<char>> {
    names.map_values(|name: String| name@)
}

/// `serde_json::to_string` on a vector of strings: the result depends on the
/// names alone, and [`json_text_of_names`] names it.
#[verifier::external_body]
pub(crate) fn names_to_json(names: &Vec<String>) -> (text: Result<String, serde_json::Error>)
    ensures
        match text {
            Ok(t) => json_text_of_names(name_texts(names@)) == Some(t@),
            Err(_) => json_text_of_names(name_texts(names@)) is None,
        },
{
    serde_json::to_string(names)
}

/// The text for a list of names that was written as JSON: the text, or `[]`
/// where the writer reported an error.
pub fn names_json(written: Result<String, serde_json::Error>) -> (text: String)
    ensures
        text@ == match written {
            Ok(json) => json@,
            Err(_) => "[]"@,
        },
{
    match written {
        Ok(json) => json,
        Err(_) => String::from_str("[]"),
    }
}

/// The list of all databases as the text of a JSON array of their names, in
/// the order of the listing; `[]` where the names cannot be written; the
/// engine's failure where the listing failed.
pub fn typedb_databases_all(listing: Result<Vec<String>, String>) -> (text: Result<
    String,
    QueryError,
>)
    ensures
        match listing {
            Err(failure) => text matches Err(error) && error@ == Failure::Engine(failure@),
            Ok(names) => text matches Ok(t) && t@ == match json_text_of_names(name_texts(names@)) {
                Some(json) => json,
                None => "[]"@,
            },
        },
{
    match listing {
        Err(failure) => Err(QueryError::Engine(failure)),
        Ok(names) => Ok(names_json(names_to_json(&names))),
    }
}

} // verus!
