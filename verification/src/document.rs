//! The export of a whole registry: the nodes of its types, sorted by type
//! path and wrapped into one document.

use vstd::prelude::*;
use crate::descriptor::{registrations_view, TypeRegistration, TypeRegistrationView};
use crate::json::{
    json_array, json_as_str, json_get, json_insert, json_object, json_of, json_string, jsons_of,
    Json,
};
use crate::schema::{export_type, schema_node};
use crate::text::{text_le, text_le_exec};
use serde_json::Value;

verus! {

/// The dialect of JSON Schema that the document declares.
pub const SCHEMA_URI: &'static str = "https://json-schema.org/draft/2020-12/schema";

/// The title of the document.
pub const TITLE: &'static str = "bevy game schema";

/// Whether a node has a `name` that is a string.
pub open spec fn has_name(node: Json) -> bool {
    node.has_string_member("name"@)
}

/// The `name` of a node.
pub open spec fn name_of(node: Json) -> Seq<char> {
    node.string_member("name"@)
}

/// The first index of `sorted` whose node has a name that is not smaller than
/// `name`; the length of `sorted` where there is none.
pub open spec fn first_not_below(name: Seq<char>, sorted: Seq<Json>) -> int
    decreases sorted.len(),
{
    if sorted.len() == 0 || text_le(name, name_of(sorted[0])) {
        0
    } else {
        1 + first_not_below(name, sorted.drop_first())
    }
}

/// A sorted sequence of nodes with one more node: the node stands before the
/// first node whose name is not smaller than its own.
pub open spec fn insert_by_name(node: Json, sorted: Seq<Json>) -> Seq<Json> {
    sorted.insert(first_not_below(name_of(node), sorted), node)
}

/// The nodes in ascending order of their names; nodes with one name keep the
/// order in which they came.
pub open spec fn sort_by_name(nodes: Seq<Json>) -> Seq<Json>
    decreases nodes.len(),
{
    if nodes.len() == 0 {
        Seq::empty()
    } else {
        insert_by_name(nodes[0], sort_by_name(nodes.drop_first()))
    }
}

/// Whether the names of a sequence of nodes never decrease.
pub open spec fn sorted_by_name(nodes: Seq<Json>) -> bool {
    forall|i: int, j: int|
        0 <= i <= j < nodes.len() ==> text_le(
            name_of(#[trigger] nodes[i]),
            name_of(#[trigger] nodes[j]),
        )
}

/// The document that wraps a list of nodes.
pub open spec fn document(nodes: Seq<Json>) -> Json {
    Json::Object(
        Map::empty().insert("$schema"@, Json::String(SCHEMA_URI@)).insert(
            "title"@,
            Json::String(TITLE@),
        ).insert("oneOf"@, Json::Array(nodes)),
    )
}

/// The schema nodes of a sequence of registered types, in that order.
pub open spec fn schema_nodes(types: Seq<TypeRegistrationView>) -> Seq<Json> {
    types.map_values(|t: TypeRegistrationView| schema_node(t))
}

/// The document exported for a sequence of registered types.
pub open spec fn exported_document(types: Seq<TypeRegistrationView>) -> Json {
    document(sort_by_name(schema_nodes(types)))
}

/// Whether every registration of a sequence is well formed.
pub open spec fn well_formed_types(types: Seq<TypeRegistrationView>) -> bool {
    forall|i: int| 0 <= i < types.len() ==> (#[trigger] types[i]).well_formed()
}

/// An index is the first whose node has a name that is not smaller than
/// `name` if the names before it are smaller and the name at it is not.
pub proof fn lemma_first_not_below_is(name: Seq<char>, sorted: Seq<Json>, at: int)
    requires
        0 <= at <= sorted.len(),
        forall|j: int| 0 <= j < at ==> !text_le(name, name_of(#[trigger] sorted[j])),
        at < sorted.len() ==> text_le(name, name_of(sorted[at])),
    ensures
        first_not_below(name, sorted) == at,
    decreases sorted.len(),
{
    if sorted.len() > 0 && at > 0 {
        let rest = sorted.drop_first();
        assert(!text_le(name, name_of(sorted[0])));
        assert forall|j: int| 0 <= j < at - 1 implies !text_le(name, name_of(#[trigger] rest[j])) by {
            assert(rest[j] == sorted[j + 1]);
        }
        lemma_first_not_below_is(name, rest, at - 1);
    }
}

/// The first index whose node has a name that is not smaller than `name`
/// lies within the sequence or at its end; the names before it are smaller,
/// and the name at it is not.
pub proof fn lemma_first_not_below(name: Seq<char>, sorted: Seq<Json>)
    ensures
        0 <= first_not_below(name, sorted) <= sorted.len(),
        forall|j: int|
            0 <= j < first_not_below(name, sorted) ==> !text_le(name, name_of(#[trigger] sorted[j])),
        first_not_below(name, sorted) < sorted.len() ==> text_le(
            name,
            name_of(sorted[first_not_below(name, sorted)]),
        ),
    decreases sorted.len(),
{
    if sorted.len() > 0 && !text_le(name, name_of(sorted[0])) {
        let rest = sorted.drop_first();
        lemma_first_not_below(name, rest);
        let at = first_not_below(name, sorted);
        assert forall|j: int| 0 <= j < at implies !text_le(name, name_of(#[trigger] sorted[j])) by {
            if j > 0 {
                assert(sorted[j] == rest[j - 1]);
            }
        }
        if at < sorted.len() {
            assert(sorted[at] == rest[at - 1]);
        }
    }
}

/// Reads the `name` of a node: its text where the node is an object whose
/// member `name` is a string, `None` otherwise.
pub fn node_name(node: &Value) -> (name: Option<String>)
    ensures
        name is Some <==> has_name(json_of(*node)),
        name matches Some(text) ==> text@ == name_of(json_of(*node)),
{
    match json_get(node, "name") {
        Some(member) => match json_as_str(member) {
            Some(text) => Some(text.to_owned()),
            None => None,
        },
        None => None,
    }
}

/// Sorts nodes in ascending order of their names. Nodes with one name keep
/// the order in which they came.
pub fn sort_nodes(nodes: Vec<Value>) -> (sorted: Vec<Value>)
    requires
        forall|i: int| 0 <= i < nodes@.len() ==> has_name(json_of(#[trigger] nodes@[i])),
    ensures
        jsons_of(sorted@) == sort_by_name(jsons_of(nodes@)),
{
    let ghost all = jsons_of(nodes@);
    let mut rest = nodes;
    let mut sorted: Vec<Value> = Vec::new();
    let mut names: Vec<String> = Vec::new();
    assert(all.skip(all.len() as int) =~= Seq::<Json>::empty());
    while rest.len() > 0
        invariant
            all == jsons_of(nodes@),
            rest@ == nodes@.take(rest@.len() as int),
            rest@.len() <= nodes@.len(),
            forall|i: int| 0 <= i < nodes@.len() ==> has_name(json_of(#[trigger] nodes@[i])),
            jsons_of(sorted@) == sort_by_name(all.skip(rest@.len() as int)),
            names@.len() == sorted@.len(),
            forall|j: int|
                0 <= j < sorted@.len() ==> (#[trigger] names@[j])@ == name_of(json_of(sorted@[j])),
        decreases rest@.len(),
    {
        let ghost k = rest@.len() - 1;
        let node = rest.pop().unwrap();
        assert(node == nodes@[k]);
        let name = node_name(&node).unwrap();
        let mut at: usize = 0;
        while at < names.len() && !text_le_exec(name.as_str(), names[at].as_str())
            invariant
                at <= names@.len(),
                names@.len() == sorted@.len(),
                name@ == name_of(json_of(node)),
                forall|j: int|
                    0 <= j < sorted@.len() ==> (#[trigger] names@[j])@ == name_of(
                        json_of(sorted@[j]),
                    ),
                forall|j: int|
                    0 <= j < at ==> !text_le(
                        name_of(json_of(node)),
                        name_of(#[trigger] jsons_of(sorted@)[j]),
                    ),
            decreases names@.len() - at,
        {
            at += 1;
        }
        proof {
            lemma_first_not_below_is(name_of(json_of(node)), jsons_of(sorted@), at as int);
            assert(all.skip(k)[0] == json_of(node));
            assert(all.skip(k).drop_first() =~= all.skip(k + 1));
            assert(jsons_of(sorted@.insert(at as int, node)) =~= jsons_of(sorted@).insert(
                at as int,
                json_of(node),
            ));
        }
        sorted.insert(at, node);
        names.insert(at, name);
    }
    assert(all.skip(0) =~= all);
    sorted
}

/// Builds the schema node of every registered type, in the order of the
/// registry.
pub fn export_nodes(types: &Vec<TypeRegistration>) -> (nodes: Vec<Value>)
    requires
        well_formed_types(registrations_view(types@)),
    ensures
        jsons_of(nodes@) == schema_nodes(registrations_view(types@)),
{
    let mut nodes: Vec<Value> = Vec::new();
    let mut i: usize = 0;
    while i < types.len()
        invariant
            i <= types.len(),
            nodes@.len() == i,
            well_formed_types(registrations_view(types@)),
            forall|k: int| 0 <= k < i ==> json_of(#[trigger] nodes@[k]) == schema_node(types@[k]@),
        decreases types.len() - i,
    {
        assert(registrations_view(types@)[i as int].well_formed());
        nodes.push(export_type(&types[i]));
        i += 1;
    }
    assert(jsons_of(nodes@) =~= schema_nodes(registrations_view(types@)));
    nodes
}

/// Wraps a list of nodes into the document.
pub fn build_document(nodes: Vec<Value>) -> (doc: Value)
    ensures
        json_of(doc) == document(jsons_of(nodes@)),
{
    let mut doc = json_object();
    json_insert(&mut doc, "$schema", json_string(SCHEMA_URI));
    json_insert(&mut doc, "title", json_string(TITLE));
    json_insert(&mut doc, "oneOf", json_array(nodes));
    doc
}

} // verus!
