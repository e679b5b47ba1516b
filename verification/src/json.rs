//! The value tree and the calls into `serde_json` that build it.
//!
//! Nodes are `serde_json::Value`s. Verus cannot look inside one, so every
//! contract speaks of a node through [`json_view`], which names the tree that a
//! value holds as a [`Json`]. The functions marked `external_body` below are the
//! only places where this crate states, without proof, what `serde_json` does.

use vstd::prelude::*;

verus! {

/// What a value-tree node holds, as a mathematical tree.
///
/// Objects are sequences of entries: their order is the order in which the
/// keys were first inserted, and it is the order in which they are serialized.
pub enum Json {
    Null,
    Bool(bool),
    /// A whole number, anywhere from `i64::MIN` to `u64::MAX`.
    Integer(int),
    /// A finite binary64 number, by its bits.
    Float(u64),
    Text(Seq<char>),
    Array(Seq<Json>),
    Object(Seq<(Seq<char>, Json)>),
}

#[verifier::external_type_specification]
#[verifier::external_body]
pub struct ExValue(serde_json::Value);

#[verifier::external_type_specification]
#[verifier::external_body]
#[verifier::reject_recursive_types(K)]
#[verifier::reject_recursive_types(V)]
pub struct ExMap<K, V>(serde_json::Map<K, V>);

#[verifier::external_type_specification]
#[verifier::external_body]
pub struct ExJsonError(serde_json::Error);

/// The tree that a `serde_json::Value` holds.
pub uninterp spec fn json_view(value: serde_json::Value) -> Json;

/// The entries of a `serde_json::Map`, in iteration order.
pub uninterp spec fn map_entries(map: serde_json::Map<String, serde_json::Value>) -> Seq<(Seq<char>, Json)>;

/// What `serde_json::from_str` makes of a text: the tree it parses to, or the
/// message of the error it reports.
pub uninterp spec fn json_parse(text: Seq<char>) -> Result<Json, Seq<char>>;

/// The message of a `serde_json::Error`: what its `Display` writes.
pub uninterp spec fn json_error_message(error: serde_json::Error) -> Seq<char>;

/// The trees held by a sequence of values.
pub open spec fn json_views(values: Seq<serde_json::Value>) -> Seq<Json> {
    values.map_values(|v: serde_json::Value| json_view(v))
}

/// Whether some entry has this key.
pub open spec fn has_key(entries: Seq<(Seq<char>, Json)>, key: Seq<char>) -> bool {
    exists|i: int| 0 <= i < entries.len() && (#[trigger] entries[i]).0 == key
}

/// Insertion into an ordered map: a new key goes last; a key that is already
/// there keeps its place and gets the new value.
pub open spec fn entries_insert(
    entries: Seq<(Seq<char>, Json)>,
    key: Seq<char>,
    value: Json,
) -> Seq<(Seq<char>, Json)> {
    if has_key(entries, key) {
        Seq::new(
            entries.len(),
            |i: int|
                if entries[i].0 == key {
                    (key, value)
                } else {
                    entries[i]
                },
        )
    } else {
        entries.push((key, value))
    }
}

/// Whether no two entries have the same key, as in every map.
pub open spec fn distinct_keys(entries: Seq<(Seq<char>, Json)>) -> bool {
    forall|i: int, j: int|
        0 <= i < j < entries.len() ==> (#[trigger] entries[i]).0 != (#[trigger] entries[j]).0
}

/// What an insertion does to entries with distinct keys: the keys stay
/// distinct; the entries that were there keep their places and their keys;
/// the entry under the inserted key has the inserted value; every other entry
/// is as it was.
pub proof fn lemma_entries_insert(entries: Seq<(Seq<char>, Json)>, key: Seq<char>, value: Json)
    requires
        distinct_keys(entries),
    ensures
        distinct_keys(entries_insert(entries, key, value)),
        has_key(entries_insert(entries, key, value), key),
        entries_insert(entries, key, value).len() == if has_key(entries, key) {
            entries.len()
        } else {
            entries.len() + 1
        },
        forall|i: int|
            0 <= i < entries.len() ==> (#[trigger] entries_insert(entries, key, value)[i]).0
                == entries[i].0,
        forall|i: int|
            0 <= i < entries_insert(entries, key, value).len() ==> {
                let entry = #[trigger] entries_insert(entries, key, value)[i];
                if entry.0 == key {
                    entry.1 == value
                } else {
                    i < entries.len() && entry == entries[i]
                }
            },
{
    let after = entries_insert(entries, key, value);
    if has_key(entries, key) {
        let at = choose|i: int| 0 <= i < entries.len() && (#[trigger] entries[i]).0 == key;
        assert(after[at].0 == key);
    } else {
        assert(after[entries.len() as int].0 == key);
    }
}

/// `serde_json::Value::Null`.
#[verifier::external_body]
pub(crate) fn json_null() -> (node: serde_json::Value)
    ensures
        json_view(node) == Json::Null,
{
    serde_json::Value::Null
}

/// `serde_json::Value::Bool`.
#[verifier::external_body]
pub(crate) fn json_bool(b: bool) -> (node: serde_json::Value)
    ensures
        json_view(node) == Json::Bool(b),
{
    serde_json::Value::Bool(b)
}

/// `serde_json::Value::from` on an `i64`: a number node that holds exactly
/// that integer.
#[verifier::external_body]
pub(crate) fn json_integer(i: i64) -> (node: serde_json::Value)
    ensures
        json_view(node) == Json::Integer(i as int),
{
    serde_json::Value::from(i)
}

/// `serde_json::Value::String`.
#[verifier::external_body]
pub(crate) fn json_text(s: String) -> (node: serde_json::Value)
    ensures
        json_view(node) == Json::Text(s@),
{
    serde_json::Value::String(s)
}

/// `Clone` of `serde_json::Value`: a node that holds the same tree.
#[verifier::external_body]
pub(crate) fn json_clone(node: &serde_json::Value) -> (copy: serde_json::Value)
    ensures
        json_view(copy) == json_view(*node),
{
    node.clone()
}

/// `serde_json::Value::Object`: the node holds the map's entries in the map's
/// order.
#[verifier::external_body]
pub(crate) fn json_object(map: serde_json::Map<String, serde_json::Value>) -> (node:
    serde_json::Value)
    ensures
        json_view(node) == Json::Object(map_entries(map)),
{
    serde_json::Value::Object(map)
}

/// `serde_json::Map::new`: a map without entries.
#[verifier::external_body]
pub(crate) fn map_new() -> (map: serde_json::Map<String, serde_json::Value>)
    ensures
        map_entries(map) == Seq::<(Seq<char>, Json)>::empty(),
{
    serde_json::Map::new()
}

/// `serde_json::Map::insert`. The map keeps insertion order (`serde_json` is
/// built with `preserve_order`), so the entries change as [`entries_insert`]
/// says. The value that was under the key before is dropped.
#[verifier::external_body]
pub(crate) fn map_insert(
    map: &mut serde_json::Map<String, serde_json::Value>,
    key: String,
    value: serde_json::Value,
)
    ensures
        map_entries(*final(map)) == entries_insert(map_entries(*old(map)), key@, json_view(value)),
{
    map.insert(key, value);
}

/// `serde_json::from_str` into a `serde_json::Value`: the result depends on the
/// text alone, and [`json_parse`] names it, the error by its message.
#[verifier::external_body]
pub(crate) fn parse_json(text: &str) -> (parsed: Result<serde_json::Value, serde_json::Error>)
    ensures
        match parsed {
            Ok(node) => json_parse(text@) == Ok::<Json, Seq<char>>(json_view(node)),
            Err(error) => json_parse(text@) == Err::<Json, Seq<char>>(json_error_message(error)),
        },
{
    serde_json::from_str::<serde_json::Value>(text)
}

/// `Display` of `serde_json::Error`: the error's message.
#[verifier::external_body]
pub(crate) fn json_error_text(error: &serde_json::Error) -> (text: String)
    ensures
        text@ == json_error_message(*error),
{
    error.to_string()
}

/// `serde_json::Value::is_f64`: whether the node is a number that is held as
/// a binary64.
#[verifier::external_body]
pub(crate) fn json_is_float(node: &serde_json::Value) -> (float: bool)
    ensures
        float == (json_view(*node) is Float),
{
    node.is_f64()
}

/// `serde_json::Value::is_null`.
#[verifier::external_body]
pub(crate) fn json_is_null(node: &serde_json::Value) -> (null: bool)
    ensures
        null == (json_view(*node) is Null),
{
    node.is_null()
}

} // verus!
