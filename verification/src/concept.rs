//! Concepts as the encoder sees them, and the value encoder itself.

use vstd::prelude::*;
use crate::engine::{decimal_rendering, decimal_text, duration_rendering, duration_text, DECIMAL_DENOMINATOR};
use crate::json::{
    entries_insert, has_key, json_bool, json_clone, json_integer, json_is_float, json_is_null,
    json_object, json_text, json_view, map_entries, map_insert, map_new, Json,
};
use crate::text::{hex_text, iid_text, lowercase, lowercase_of};

verus! {

/// A fixed-point decimal: an integer part and a fractional part in units of
/// ten to the minus nineteenth. The fractional part is always below one whole.
#[derive(Clone, Copy, Debug, PartialEq, Eq)]
pub struct Decimal {
    integer: i64,
    fractional: u64,
}

impl Decimal {
    #[verifier::type_invariant]
    spec fn fraction_below_one(self) -> bool {
        self.fractional < DECIMAL_DENOMINATOR
    }

    /// The integer part.
    pub closed spec fn integer_part(self) -> i64 {
        self.integer
    }

    /// The fractional part.
    pub closed spec fn fractional_part(self) -> u64 {
        self.fractional
    }

    /// A decimal from its two parts, or `None` if the fractional part is one
    /// whole or more.
    pub fn new(integer: i64, fractional: u64) -> (made: Option<Decimal>)
        ensures
            made is Some <==> fractional < DECIMAL_DENOMINATOR,
            made matches Some(d) ==> d.integer_part() == integer && d.fractional_part()
                == fractional,
    {
        if fractional < DECIMAL_DENOMINATOR {
            Some(Decimal { integer, fractional })
        } else {
            None
        }
    }

    /// The integer part.
    pub fn integer(&self) -> (i: i64)
        ensures
            i == self.integer_part(),
    {
        self.integer
    }

    /// The fractional part.
    pub fn fractional(&self) -> (f: u64)
        ensures
            f == self.fractional_part(),
            f < DECIMAL_DENOMINATOR,
    {
        proof {
            use_type_invariant(self);
        }
        self.fractional
    }
}

/// The node of a double: a number held as a binary64, or null for a double
/// that is not finite, which no number node can hold.
#[derive(Debug, PartialEq)]
pub struct DoubleNode {
    node: serde_json::Value,
}

impl DoubleNode {
    #[verifier::type_invariant]
    spec fn float_or_null(self) -> bool {
        json_view(self.node) is Float || json_view(self.node) is Null
    }

    /// The tree that the node holds.
    pub closed spec fn tree(self) -> Json {
        json_view(self.node)
    }

    /// Takes a node for a double, or `None` if the node is neither a binary64
    /// number nor null.
    pub fn new(node: serde_json::Value) -> (made: Option<DoubleNode>)
        ensures
            made is Some <==> json_view(node) is Float || json_view(node) is Null,
            made matches Some(double) ==> double.tree() == json_view(node),
    {
        if json_is_float(&node) || json_is_null(&node) {
            Some(DoubleNode { node })
        } else {
            None
        }
    }

    /// The node itself.
    pub fn node(&self) -> (copy: serde_json::Value)
        ensures
            json_view(copy) == self.tree(),
            self.tree() is Float || self.tree() is Null,
    {
        proof {
            use_type_invariant(self);
        }
        json_clone(&self.node)
    }
}

/// A value, in exactly one of the categories that the engine declares.
#[derive(Debug, PartialEq)]
pub enum ConceptValue {
    Boolean(bool),
    Integer(i64),
    /// A double, as the number node that the boundary made of it: this library
    /// does no floating point.
    Double(DoubleNode),
    String(String),
    Decimal(Decimal),
    /// A date, in the engine's display form.
    Date(String),
    /// A date and time, in the engine's display form.
    Datetime(String),
    /// A date and time with its time zone, in the engine's display form.
    DatetimeTZ(String),
    Duration { months: u32, days: u32, nanos: u64 },
    /// A struct, described in text.
    Struct(String),
}

/// What the encoder reads of one concept.
#[derive(Debug, PartialEq)]
pub enum Concept {
    /// A value, or an attribute, which has one.
    Value(ConceptValue),
    /// An entity or a relation.
    Instance { kind: String, type_label: String, iid: Vec<u8> },
    /// A type of the schema.
    Type { kind: String, label: String },
    /// Anything else, described in text.
    Other(String),
}

/// The node that stands for a value.
pub open spec fn value_node(value: ConceptValue) -> Json {
    match value {
        ConceptValue::Boolean(b) => Json::Bool(b),
        ConceptValue::Integer(i) => Json::Integer(i as int),
        ConceptValue::Double(number) => number.tree(),
        ConceptValue::String(s) => Json::Text(s@),
        ConceptValue::Decimal(d) => Json::Text(
            decimal_rendering(d.integer_part(), d.fractional_part()),
        ),
        ConceptValue::Date(text) => Json::Text(text@),
        ConceptValue::Datetime(text) => Json::Text(text@),
        ConceptValue::DatetimeTZ(text) => Json::Text(text@),
        ConceptValue::Duration { months, days, nanos } => Json::Text(
            duration_rendering(months, days, nanos),
        ),
        ConceptValue::Struct(text) => Json::Text(text@),
    }
}

/// The node that stands for an entity or a relation.
pub open spec fn instance_node(kind: Seq<char>, type_label: Seq<char>, iid: Seq<u8>) -> Json {
    Json::Object(
        seq![
            ("_kind"@, Json::Text(lowercase_of(kind))),
            ("_type"@, Json::Text(type_label)),
            ("_iid"@, Json::Text(hex_text(iid))),
        ],
    )
}

/// The node that stands for a type.
pub open spec fn type_node(kind: Seq<char>, label: Seq<char>) -> Json {
    Json::Object(seq![("_kind"@, Json::Text(lowercase_of(kind))), ("_label"@, Json::Text(label))])
}

/// The node that stands for a concept.
pub open spec fn concept_node(concept: Concept) -> Json {
    match concept {
        Concept::Value(value) => value_node(value),
        Concept::Instance { kind, type_label, iid } => instance_node(kind@, type_label@, iid@),
        Concept::Type { kind, label } => type_node(kind@, label@),
        Concept::Other(text) => Json::Text(text@),
    }
}

/// Encodes a value: booleans, integers, doubles and strings as scalars of
/// their kind, every other category as text.
pub fn value_to_json(value: &ConceptValue) -> (node: serde_json::Value)
    ensures
        json_view(node) == value_node(*value),
        value is Double ==> json_view(node) is Float || json_view(node) is Null,
{
    match value {
        ConceptValue::Boolean(b) => json_bool(*b),
        ConceptValue::Integer(i) => json_integer(*i),
        ConceptValue::Double(number) => number.node(),
        ConceptValue::String(s) => json_text(s.clone()),
        ConceptValue::Decimal(d) => json_text(decimal_text(d.integer(), d.fractional())),
        ConceptValue::Date(text) => json_text(text.clone()),
        ConceptValue::Datetime(text) => json_text(text.clone()),
        ConceptValue::DatetimeTZ(text) => json_text(text.clone()),
        ConceptValue::Duration { months, days, nanos } => json_text(
            duration_text(*months, *days, *nanos),
        ),
        ConceptValue::Struct(text) => json_text(text.clone()),
    }
}

/// Encodes a concept as a value-tree node. Total: every concept has a node.
pub fn concept_to_json(concept: &Concept) -> (node: serde_json::Value)
    ensures
        json_view(node) == concept_node(*concept),
{
    match concept {
        Concept::Value(value) => value_to_json(value),
        Concept::Instance { kind, type_label, iid } => {
            let mut obj = map_new();
            map_insert(&mut obj, String::from_str("_kind"), json_text(lowercase(kind.as_str())));
            map_insert(&mut obj, String::from_str("_type"), json_text(type_label.clone()));
            map_insert(&mut obj, String::from_str("_iid"), json_text(iid_text(iid)));
            proof {
                reveal_strlit("_kind");
                reveal_strlit("_type");
                reveal_strlit("_iid");
                let first = seq![("_kind"@, Json::Text(lowercase_of(kind@)))];
                let second = first.push(("_type"@, Json::Text(type_label@)));
                assert(!has_key(Seq::<(Seq<char>, Json)>::empty(), "_kind"@));
                assert(entries_insert(Seq::empty(), "_kind"@, Json::Text(lowercase_of(kind@)))
                    =~= first);
                assert(!has_key(first, "_type"@)) by {
                    assert("_kind"@[1] != "_type"@[1]);
                }
                assert(!has_key(second, "_iid"@)) by {
                    assert("_kind"@[1] != "_iid"@[1]);
                    assert("_type"@[1] != "_iid"@[1]);
                }
                assert(map_entries(obj) =~= seq![
                    ("_kind"@, Json::Text(lowercase_of(kind@))),
                    ("_type"@, Json::Text(type_label@)),
                    ("_iid"@, Json::Text(hex_text(iid@))),
                ]);
            }
            json_object(obj)
        },
        Concept::Type { kind, label } => {
            let mut obj = map_new();
            map_insert(&mut obj, String::from_str("_kind"), json_text(lowercase(kind.as_str())));
            map_insert(&mut obj, String::from_str("_label"), json_text(label.clone()));
            proof {
                reveal_strlit("_kind");
                reveal_strlit("_label");
                let first = seq![("_kind"@, Json::Text(lowercase_of(kind@)))];
                assert(!has_key(Seq::<(Seq<char>, Json)>::empty(), "_kind"@));
                assert(entries_insert(Seq::empty(), "_kind"@, Json::Text(lowercase_of(kind@)))
                    =~= first);
                assert(!has_key(first, "_label"@)) by {
                    assert("_kind"@[1] != "_label"@[1]);
                }
                assert(map_entries(obj) =~= seq![
                    ("_kind"@, Json::Text(lowercase_of(kind@))),
                    ("_label"@, Json::Text(label@)),
                ]);
            }
            json_object(obj)
        },
        Concept::Other(text) => json_text(text.clone()),
    }
}

} // verus!
