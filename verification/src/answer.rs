//! The answer encoder: from a classified answer to a sequence of value-tree
//! nodes, and from there to one MessagePack buffer.

use vstd::prelude::*;
use crate::concept::{concept_node, concept_to_json, Concept};
use crate::error::{Failure, QueryError};
use crate::json::{
    distinct_keys, entries_insert, has_key, json_error_message, json_error_text, json_null,
    json_object, json_parse, json_view, json_views, lemma_entries_insert, map_entries, map_insert,
    map_new, parse_json, Json,
};

verus! {

#[verifier::external_type_specification]
#[verifier::external_body]
pub struct ExEncodeError(rmp_serde::encode::Error);

/// What `rmp_serde::to_vec` makes of a sequence of nodes: the bytes of a
/// MessagePack array with one element per node, or the message of the error
/// it reports.
pub uninterp spec fn msgpack_encoding(nodes: Seq<Json>) -> Result<Seq<u8>, Seq<char>>;

/// The message of an `rmp_serde::encode::Error`: what its `Display` writes.
pub uninterp spec fn encode_error_message(error: rmp_serde::encode::Error) -> Seq<char>;

/// `rmp_serde::to_vec` on a vector of nodes: the result depends on the trees
/// alone, and [`msgpack_encoding`] names it, the error by its message. The
/// bytes begin with the header of the array, so there is at least one.
#[verifier::external_body]
pub(crate) fn to_msgpack(nodes: &Vec<serde_json::Value>) -> (encoded: Result<
    Vec<u8>,
    rmp_serde::encode::Error,
>)
    ensures
        match encoded {
            Ok(bytes) => msgpack_encoding(json_views(nodes@)) == Ok::<Seq<u8>, Seq<char>>(bytes@)
                && bytes@.len() > 0,
            Err(error) => msgpack_encoding(json_views(nodes@)) == Err::<Seq<u8>, Seq<char>>(
                encode_error_message(error),
            ),
        },
{
    rmp_serde::to_vec(nodes)
}

/// `Display` of `rmp_serde::encode::Error`: the error's message.
#[verifier::external_body]
pub(crate) fn encode_error_text(error: &rmp_serde::encode::Error) -> (text: String)
    ensures
        text@ == encode_error_message(*error),
{
    error.to_string()
}

/// One item of a row stream: the cells of a row, or the text of the failure
/// that came in its place.
pub type RowItem = Result<Vec<Option<Concept>>, String>;

/// One item of a document stream: a document as JSON text, or the text of the
/// failure that came in its place.
pub type DocumentItem = Result<String, String>;

/// The answer to a query, classified by the engine and drained.
#[derive(Debug, PartialEq)]
pub enum Answer {
    /// No payload.
    Empty,
    /// Rows under one header of column names.
    RowStream { column_names: Vec<String>, rows: Vec<RowItem> },
    /// Documents.
    DocumentStream { documents: Vec<DocumentItem> },
}

/// The node of a cell: the concept's node, or null where the column is
/// unbound.
pub open spec fn cell_node(cell: Option<Concept>) -> Json {
    match cell {
        Some(concept) => concept_node(concept),
        None => Json::Null,
    }
}

/// The entries of a row's object once its first `n` columns are in.
pub open spec fn row_entries(
    column_names: Seq<String>,
    cells: Seq<Option<Concept>>,
    n: nat,
) -> Seq<(Seq<char>, Json)>
    decreases n,
{
    if n == 0 {
        Seq::empty()
    } else {
        entries_insert(
            row_entries(column_names, cells, (n - 1) as nat),
            column_names[n - 1]@,
            cell_node(cells[n - 1]),
        )
    }
}

/// What encoding a row gives: an object with an entry per column, or, where
/// the row is shorter than the header, the failure at the first missing cell.
pub open spec fn row_outcome(column_names: Seq<String>, cells: Seq<Option<Concept>>) -> Result<
    Json,
    Failure,
> {
    if cells.len() < column_names.len() {
        Err(Failure::UnavailableRowIndex(cells.len() as usize))
    } else {
        Ok(Json::Object(row_entries(column_names, cells, column_names.len())))
    }
}

/// What an item of a row stream gives.
pub open spec fn row_item_outcome(column_names: Seq<String>, item: RowItem) -> Result<
    Json,
    Failure,
> {
    match item {
        Ok(cells) => row_outcome(column_names, cells@),
        Err(text) => Err(Failure::Engine(text@)),
    }
}

/// What converting a document gives: the tree that its text parses to, or,
/// where it does not parse, a failure with the parser's message. Nothing is
/// put in the place of a document that cannot be converted.
pub open spec fn document_outcome(text: Seq<char>) -> Result<Json, Failure> {
    match json_parse(text) {
        Ok(node) => Ok(node),
        Err(message) => Err(Failure::Document(message)),
    }
}

/// What an item of a document stream gives.
pub open spec fn document_item_outcome(item: DocumentItem) -> Result<Json, Failure> {
    match item {
        Ok(text) => document_outcome(text@),
        Err(text) => Err(Failure::Engine(text@)),
    }
}

/// All the nodes in order if every item gave one; otherwise the failure of
/// the first item that gave none.
pub open spec fn collect_outcomes(items: Seq<Result<Json, Failure>>) -> Result<Seq<Json>, Failure>
    decreases items.len(),
{
    if items.len() == 0 {
        Ok(Seq::empty())
    } else {
        match collect_outcomes(items.drop_last()) {
            Err(failure) => Err(failure),
            Ok(nodes) => match items.last() {
                Ok(node) => Ok(nodes.push(node)),
                Err(failure) => Err(failure),
            },
        }
    }
}

/// What the items of a row stream give, one by one.
pub open spec fn row_outcomes(column_names: Seq<String>, rows: Seq<RowItem>) -> Seq<
    Result<Json, Failure>,
> {
    rows.map_values(|item: RowItem| row_item_outcome(column_names, item))
}

/// What the items of a document stream give, one by one.
pub open spec fn document_outcomes(documents: Seq<DocumentItem>) -> Seq<Result<Json, Failure>> {
    documents.map_values(|item: DocumentItem| document_item_outcome(item))
}

/// The nodes of an answer, or the failure that ends it.
pub open spec fn answer_outcome(answer: Answer) -> Result<Seq<Json>, Failure> {
    match answer {
        Answer::Empty => Ok(Seq::empty()),
        Answer::RowStream { column_names, rows } => collect_outcomes(
            row_outcomes(column_names@, rows@),
        ),
        Answer::DocumentStream { documents } => collect_outcomes(
            document_outcomes(documents@),
        ),
    }
}

/// What serializing a sequence of nodes gives: the MessagePack array of them,
/// or a failure to encode with the serializer's message.
pub open spec fn buffer_outcome(nodes: Seq<Json>) -> Result<Seq<u8>, Failure> {
    match msgpack_encoding(nodes) {
        Ok(buffer) => Ok(buffer),
        Err(message) => Err(Failure::Encode(message)),
    }
}

/// Whether `encoded` is what serializing the answer gives. An answer without
/// payload gives the buffer of length zero, and only it does: a stream is
/// always serialized as the array of its nodes, also where it has none. A
/// stream gives the failure that ends it, else the MessagePack array of its
/// nodes, else the failure to encode that the serializer reports.
pub open spec fn encodes(answer: Answer, encoded: Result<Vec<u8>, QueryError>) -> bool {
    if answer is Empty {
        encoded matches Ok(bytes) && bytes@.len() == 0
    } else {
        match answer_outcome(answer) {
            Err(failure) => encoded matches Err(error) && error@ == failure,
            Ok(nodes) => match buffer_outcome(nodes) {
                Ok(buffer) => encoded matches Ok(bytes) && bytes@ == buffer,
                Err(failure) => encoded matches Err(error) && error@ == failure,
            },
        }
    }
}

/// Encodes a row as an object keyed by column name, in the header's order.
pub fn row_to_json(column_names: &Vec<String>, cells: &Vec<Option<Concept>>) -> (encoded: Result<
    serde_json::Value,
    QueryError,
>)
    ensures
        match row_outcome(column_names@, cells@) {
            Ok(node) => encoded matches Ok(value) && json_view(value) == node,
            Err(failure) => encoded matches Err(error) && error@ == failure,
        },
{
    let mut obj = map_new();
    let mut i: usize = 0;
    while i < column_names.len()
        invariant
            i <= column_names.len(),
            i <= cells.len(),
            map_entries(obj) == row_entries(column_names@, cells@, i as nat),
        decreases column_names.len() - i,
    {
        if i >= cells.len() {
            return Err(QueryError::UnavailableRowIndex(i));
        }
        let node = match &cells[i] {
            Some(concept) => concept_to_json(concept),
            None => json_null(),
        };
        map_insert(&mut obj, column_names[i].clone(), node);
        i += 1;
    }
    Ok(json_object(obj))
}

/// The node of a document whose text was parsed: the tree, or, where the
/// parser reported an error, a failure to convert with the parser's message.
pub fn parsed_document(parsed: Result<serde_json::Value, serde_json::Error>) -> (converted: Result<
    serde_json::Value,
    QueryError,
>)
    ensures
        match parsed {
            Ok(tree) => converted == Ok::<serde_json::Value, QueryError>(tree),
            Err(error) => converted matches Err(failure) && failure@ == Failure::Document(
                json_error_message(error),
            ),
        },
{
    match parsed {
        Ok(tree) => Ok(tree),
        Err(error) => Err(QueryError::Document(json_error_text(&error))),
    }
}

/// Normalizes a document: the tree that its text parses to. A text that does
/// not parse is a failure to convert.
pub fn document_to_json(text: &str) -> (converted: Result<serde_json::Value, QueryError>)
    ensures
        match document_outcome(text@) {
            Ok(node) => converted matches Ok(value) && json_view(value) == node,
            Err(failure) => converted matches Err(error) && error@ == failure,
        },
{
    parsed_document(parse_json(text))
}

/// The buffer that the serializer returned, or a failure to encode with the
/// serializer's message.
pub fn encoded_buffer(encoded: Result<Vec<u8>, rmp_serde::encode::Error>) -> (buffer: Result<
    Vec<u8>,
    QueryError,
>)
    ensures
        match encoded {
            Ok(bytes) => buffer == Ok::<Vec<u8>, QueryError>(bytes),
            Err(failure) => buffer matches Err(error) && error@ == Failure::Encode(
                encode_error_message(failure),
            ),
        },
{
    match encoded {
        Ok(bytes) => Ok(bytes),
        Err(error) => Err(QueryError::Encode(encode_error_text(&error))),
    }
}

/// Whether an item ends its row stream: a failure that came in place of a
/// row, or a row that is shorter than the header.
pub fn row_item_fails(column_names: &Vec<String>, item: &RowItem) -> (fails: bool)
    ensures
        fails == row_item_outcome(column_names@, *item) is Err,
{
    match item {
        Ok(cells) => cells.len() < column_names.len(),
        Err(_) => true,
    }
}

/// Whether an item ends its document stream: a failure that came in place of
/// a document, or a document whose text does not parse.
pub fn document_item_fails(item: &DocumentItem) -> (fails: bool)
    ensures
        fails == document_item_outcome(*item) is Err,
{
    match item {
        Ok(text) => match parse_json(text.as_str()) {
            Ok(_) => false,
            Err(_) => true,
        },
        Err(_) => true,
    }
}

/// Drains an answer into its nodes, in order. The first item that fails ends
/// the whole answer with its failure; nothing partial is returned.
pub fn collect_answer_to_values(answer: Answer) -> (collected: Result<
    Vec<serde_json::Value>,
    QueryError,
>)
    ensures
        match answer_outcome(answer) {
            Ok(nodes) => collected matches Ok(values) && values@.len() == nodes.len()
                && json_views(values@) == nodes,
            Err(failure) => collected matches Err(error) && error@ == failure,
        },
{
    match answer {
        Answer::Empty => {
            let values: Vec<serde_json::Value> = Vec::new();
            assert(json_views(values@) =~= Seq::<Json>::empty());
            Ok(values)
        },
        Answer::DocumentStream { documents } => {
            let mut docs: Vec<serde_json::Value> = Vec::new();
            let ghost items = document_outcomes(documents@);
            let mut i: usize = 0;
            assert(json_views(docs@) =~= Seq::<Json>::empty());
            assert(items.take(0) =~= Seq::<Result<Json, Failure>>::empty());
            while i < documents.len()
                invariant
                    i <= documents.len(),
                    items == document_outcomes(documents@),
                    answer_outcome(answer) == collect_outcomes(items),
                    collect_outcomes(items.take(i as int)) == Ok::<Seq<Json>, Failure>(
                        json_views(docs@),
                    ),
                decreases documents.len() - i,
            {
                proof {
                    assert(items.take(i + 1).drop_last() =~= items.take(i as int));
                    assert(items.take(i + 1).last() == document_item_outcome(documents@[i as int]));
                }
                match &documents[i] {
                    Ok(text) => {
                        match document_to_json(text.as_str()) {
                            Ok(node) => {
                                let ghost before = json_views(docs@);
                                docs.push(node);
                                assert(json_views(docs@) =~= before.push(json_view(node)));
                            },
                            Err(error) => {
                                proof {
                                    lemma_failure_stays(items, i + 1);
                                }
                                return Err(error);
                            },
                        }
                    },
                    Err(text) => {
                        proof {
                            lemma_failure_stays(items, i + 1);
                        }
                        return Err(QueryError::Engine(text.clone()));
                    },
                }
                i += 1;
            }
            assert(items.take(i as int) =~= items);
            Ok(docs)
        },
        Answer::RowStream { column_names, rows } => {
            let mut docs: Vec<serde_json::Value> = Vec::new();
            let ghost items = row_outcomes(column_names@, rows@);
            let mut i: usize = 0;
            assert(json_views(docs@) =~= Seq::<Json>::empty());
            assert(items.take(0) =~= Seq::<Result<Json, Failure>>::empty());
            while i < rows.len()
                invariant
                    i <= rows.len(),
                    items == row_outcomes(column_names@, rows@),
                    answer_outcome(answer) == collect_outcomes(items),
                    collect_outcomes(items.take(i as int)) == Ok::<Seq<Json>, Failure>(
                        json_views(docs@),
                    ),
                decreases rows.len() - i,
            {
                proof {
                    assert(items.take(i + 1).drop_last() =~= items.take(i as int));
                    assert(items.take(i + 1).last() == row_item_outcome(
                        column_names@,
                        rows@[i as int],
                    ));
                }
                match &rows[i] {
                    Ok(cells) => {
                        match row_to_json(&column_names, cells) {
                            Ok(node) => {
                                let ghost before = json_views(docs@);
                                docs.push(node);
                                assert(json_views(docs@) =~= before.push(json_view(node)));
                            },
                            Err(error) => {
                                proof {
                                    lemma_failure_stays(items, i + 1);
                                }
                                return Err(error);
                            },
                        }
                    },
                    Err(text) => {
                        proof {
                            lemma_failure_stays(items, i + 1);
                        }
                        return Err(QueryError::Engine(text.clone()));
                    },
                }
                i += 1;
            }
            assert(items.take(i as int) =~= items);
            Ok(docs)
        },
    }
}

/// A failure among the first `n` items is the failure of them all.
proof fn lemma_failure_stays(items: Seq<Result<Json, Failure>>, n: int)
    requires
        0 <= n <= items.len(),
        collect_outcomes(items.take(n)) is Err,
    ensures
        collect_outcomes(items) == collect_outcomes(items.take(n)),
    decreases items.len() - n,
{
    if n == items.len() {
        assert(items.take(n) =~= items);
    } else {
        assert(items.take(n + 1).drop_last() =~= items.take(n));
        lemma_failure_stays(items, n + 1);
    }
}

/// Drains an answer and serializes it. An answer without payload gives the
/// buffer of length zero. A stream gives the MessagePack array of its nodes,
/// which for a stream without items is the encoded empty array and not the
/// buffer of length zero.
pub fn collect_answer_to_msgpack(answer: Answer) -> (encoded: Result<Vec<u8>, QueryError>)
    ensures
        encodes(answer, encoded),
        answer is Empty <==> (encoded matches Ok(bytes) && bytes@.len() == 0),
{
    if let Answer::Empty = answer {
        return Ok(Vec::new());
    }
    let rows = match collect_answer_to_values(answer) {
        Ok(rows) => rows,
        Err(error) => {
            return Err(error);
        },
    };
    encoded_buffer(to_msgpack(&rows))
}

/// Where every item gave a node, the answer has as many nodes as items, each
/// in its item's place.
pub proof fn lemma_collect_all(items: Seq<Result<Json, Failure>>)
    requires
        forall|i: int| 0 <= i < items.len() ==> (#[trigger] items[i]) is Ok,
    ensures
        collect_outcomes(items) matches Ok(nodes) && nodes.len() == items.len() && forall|i: int|
            0 <= i < items.len() ==> Ok::<Json, Failure>(#[trigger] nodes[i]) == items[i],
    decreases items.len(),
{
    if items.len() > 0 {
        lemma_collect_all(items.drop_last());
    }
}

/// Fail-fast: where an item failed and every item before it gave a node, the
/// answer is that item's failure, whatever comes after it.
pub proof fn lemma_collect_first_failure(items: Seq<Result<Json, Failure>>, k: int)
    requires
        0 <= k < items.len(),
        items[k] is Err,
        forall|i: int| 0 <= i < k ==> (#[trigger] items[i]) is Ok,
    ensures
        collect_outcomes(items) matches Err(failure) && Err::<Json, Failure>(failure) == items[k],
{
    let upto = items.take(k + 1);
    assert(upto.drop_last() =~= items.take(k));
    lemma_collect_all(items.take(k));
    lemma_failure_stays(items, k + 1);
}

/// An answer without payload serializes to the empty buffer, with no failure.
pub proof fn lemma_no_payload(encoded: Result<Vec<u8>, QueryError>)
    requires
        encodes(Answer::Empty, encoded),
    ensures
        encoded matches Ok(bytes) && bytes@.len() == 0,
{
}

/// Whether no two columns have the same name.
pub open spec fn distinct_names(column_names: Seq<String>) -> bool {
    forall|i: int, j: int|
        0 <= i < j < column_names.len() ==> (#[trigger] column_names[i])@
            != (#[trigger] column_names[j])@
}

/// The entries that stand for a row: one per column, in the header's order,
/// each under its column's name, null where the column is unbound.
pub open spec fn row_object_entries(column_names: Seq<String>, cells: Seq<Option<Concept>>) -> Seq<
    (Seq<char>, Json),
> {
    Seq::new(column_names.len(), |j: int| (column_names[j]@, cell_node(cells[j])))
}

/// Under distinct column names, inserting the columns one by one lays the
/// entries out in the header's order.
pub proof fn lemma_row_entries(column_names: Seq<String>, cells: Seq<Option<Concept>>, n: nat)
    requires
        distinct_names(column_names),
        n <= column_names.len(),
    ensures
        row_entries(column_names, cells, n) == row_object_entries(column_names, cells).take(
            n as int,
        ),
    decreases n,
{
    let whole = row_object_entries(column_names, cells);
    if n == 0 {
        assert(row_entries(column_names, cells, n) =~= whole.take(0));
    } else {
        lemma_row_entries(column_names, cells, (n - 1) as nat);
        let before = whole.take(n - 1);
        let key = column_names[n - 1]@;
        assert(!has_key(before, key)) by {
            assert forall|i: int| 0 <= i < before.len() implies (#[trigger] before[i]).0 != key by {
                assert(before[i].0 == column_names[i]@);
            }
        }
        assert(before.push((key, cell_node(cells[n - 1]))) =~= whole.take(n as int));
    }
}

/// Whether column `j` is the last of the first `n` columns under its name.
pub open spec fn last_under_its_name(column_names: Seq<String>, n: nat, j: int) -> bool {
    &&& 0 <= j < n
    &&& forall|l: int| j < l < n ==> (#[trigger] column_names[l])@ != column_names[j]@
}

/// Whether `entries` are a map of the first `n` columns: the keys are
/// distinct; every column name is a key and every key is a column name; and
/// the value under a name is the node of the last cell under that name.
pub open spec fn is_map_of_columns(
    entries: Seq<(Seq<char>, Json)>,
    column_names: Seq<String>,
    cells: Seq<Option<Concept>>,
    n: nat,
) -> bool {
    &&& distinct_keys(entries)
    &&& forall|j: int| 0 <= j < n ==> has_key(entries, (#[trigger] column_names[j])@)
    &&& forall|i: int|
        0 <= i < entries.len() ==> exists|j: int|
            0 <= j < n && (#[trigger] column_names[j])@ == (#[trigger] entries[i]).0
    &&& forall|i: int, j: int|
        0 <= i < entries.len() && last_under_its_name(column_names, n, j) && (
        #[trigger] entries[i]).0 == (#[trigger] column_names[j])@ ==> entries[i].1 == cell_node(
            cells[j],
        )
}

/// Whatever the column names, repeated or not, the entries of a row's object
/// are a map of its columns.
#[verifier::rlimit(40)]
pub proof fn lemma_row_entries_any(column_names: Seq<String>, cells: Seq<Option<Concept>>, n: nat)
    requires
        n <= column_names.len(),
    ensures
        is_map_of_columns(row_entries(column_names, cells, n), column_names, cells, n),
    decreases n,
{
    if n > 0 {
        let before = row_entries(column_names, cells, (n - 1) as nat);
        let key = column_names[n - 1]@;
        let value = cell_node(cells[n - 1]);
        let after = row_entries(column_names, cells, n);
        lemma_row_entries_any(column_names, cells, (n - 1) as nat);
        lemma_entries_insert(before, key, value);
        assert forall|j: int| 0 <= j < n implies has_key(after, (#[trigger] column_names[j])@) by {
            if j < n - 1 {
                let at = choose|i: int|
                    0 <= i < before.len() && (#[trigger] before[i]).0 == column_names[j]@;
                assert(after[at].0 == column_names[j]@);
            }
        }
        assert forall|i: int| 0 <= i < after.len() implies exists|j: int|
            0 <= j < n && (#[trigger] column_names[j])@ == (#[trigger] after[i]).0 by {
            if after[i].0 == key {
                assert(column_names[n - 1]@ == after[i].0);
            } else {
                assert(after[i] == before[i]);
                let j = choose|j: int|
                    0 <= j < n - 1 && (#[trigger] column_names[j])@ == (#[trigger] before[i]).0;
                assert(column_names[j]@ == after[i].0);
            }
        }
        assert forall|i: int, j: int|
            0 <= i < after.len() && last_under_its_name(column_names, n, j) && (
            #[trigger] after[i]).0 == (#[trigger] column_names[j])@ implies after[i].1
            == cell_node(cells[j]) by {
            if j < n - 1 {
                assert(column_names[n - 1]@ != column_names[j]@);
                assert(after[i] == before[i]);
                assert(last_under_its_name(column_names, (n - 1) as nat, j));
            }
        }
    }
}

/// Whether a node is the object of a row: exactly one entry per column, in
/// the header's order, each under its column's name; the entry of an unbound
/// column is null, that of a bound one is its concept's node.
pub open spec fn is_row_object(
    node: Json,
    column_names: Seq<String>,
    cells: Seq<Option<Concept>>,
) -> bool {
    &&& node matches Json::Object(entries)
    &&& entries.len() == column_names.len()
    &&& forall|j: int|
        0 <= j < column_names.len() ==> {
            &&& (#[trigger] entries[j]).0 == column_names[j]@
            &&& cells[j] is None ==> entries[j].1 == Json::Null
            &&& cells[j] matches Some(concept) ==> entries[j].1 == concept_node(concept)
        }
}

/// A row stream of `N` rows under `k` distinct column names, every row with a
/// cell for every column, encodes to exactly `N` nodes, and the node of each
/// row is its object: `k` keys, equal to the column names in the header's
/// order, with null for every unbound column.
pub proof fn lemma_row_stream_shape(column_names: Vec<String>, rows: Vec<RowItem>)
    requires
        distinct_names(column_names@),
        forall|i: int|
            0 <= i < rows@.len() ==> (#[trigger] rows@[i] matches Ok(cells) && cells@.len()
                == column_names@.len()),
    ensures
        answer_outcome(Answer::RowStream { column_names, rows }) is Ok,
        answer_outcome(Answer::RowStream { column_names, rows })->Ok_0.len() == rows@.len(),
        forall|i: int|
            0 <= i < rows@.len() ==> is_row_object(
                #[trigger] answer_outcome(Answer::RowStream { column_names, rows })->Ok_0[i],
                column_names@,
                rows@[i]->Ok_0@,
            ),
{
    let items = row_outcomes(column_names@, rows@);
    assert forall|i: int| 0 <= i < items.len() implies (#[trigger] items[i]) == Ok::<
        Json,
        Failure,
    >(Json::Object(row_object_entries(column_names@, rows@[i]->Ok_0@))) by {
        let cells = rows@[i]->Ok_0@;
        lemma_row_entries(column_names@, cells, column_names@.len());
        let whole = row_object_entries(column_names@, cells);
        assert(whole.take(column_names@.len() as int) =~= whole);
    }
    lemma_collect_all(items);
    let nodes = collect_outcomes(items)->Ok_0;
    assert forall|i: int| 0 <= i < rows@.len() implies is_row_object(
        #[trigger] nodes[i],
        column_names@,
        rows@[i]->Ok_0@,
    ) by {
        assert(Ok::<Json, Failure>(nodes[i]) == items[i]);
    }
}

} // verus!
