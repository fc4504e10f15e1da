//! What holds of every export, stated over the models and proved from the
//! definitions that the contracts of the library use.

use vstd::prelude::*;
use crate::bounds::{reported, BoundsView, Target};
use crate::descriptor::{FieldView, TypeRegistrationView, VariantView};
use crate::document::{
    document, exported_document, first_not_below, insert_by_name, lemma_first_not_below, name_of,
    schema_nodes, sort_by_name, sorted_by_name, SCHEMA_URI, TITLE,
};
use crate::export::exported;
use crate::json::{pretty_bytes, Json};
use crate::schema::{
    all_unit, field_schema, lemma_key_texts, names_where, properties, schema_node, variant_schema,
};
use crate::text::{
    is_optional_path, lemma_text_le_reflexive, lemma_text_le_total, lemma_text_le_transitive,
    text_le,
};

verus! {

/// A sorted sequence stays sorted when a node is inserted by its name.
pub proof fn lemma_insert_keeps_sorted(node: Json, sorted: Seq<Json>)
    requires
        sorted_by_name(sorted),
    ensures
        sorted_by_name(insert_by_name(node, sorted)),
{
    let name = name_of(node);
    let at = first_not_below(name, sorted);
    let after = insert_by_name(node, sorted);
    lemma_first_not_below(name, sorted);
    assert forall|i: int, j: int| 0 <= i <= j < after.len() implies text_le(
        name_of(#[trigger] after[i]),
        name_of(#[trigger] after[j]),
    ) by {
        let a = if i < at { i } else { i - 1 };
        let b = if j < at { j } else { j - 1 };
        if i == at && j == at {
            lemma_text_le_reflexive(name);
        } else if i == at {
            assert(after[j] == sorted[b]);
            assert(text_le(name_of(sorted[at]), name_of(sorted[b])));
            lemma_text_le_transitive(name, name_of(sorted[at]), name_of(sorted[b]));
        } else if j == at {
            assert(after[i] == sorted[a]);
            lemma_text_le_total(name, name_of(sorted[a]));
        } else {
            assert(after[i] == sorted[a]);
            assert(after[j] == sorted[b]);
        }
    }
}

/// The names of sorted nodes never decrease.
pub proof fn lemma_sort_by_name_sorted(nodes: Seq<Json>)
    ensures
        sorted_by_name(sort_by_name(nodes)),
    decreases nodes.len(),
{
    if nodes.len() > 0 {
        lemma_sort_by_name_sorted(nodes.drop_first());
        lemma_insert_keeps_sorted(nodes[0], sort_by_name(nodes.drop_first()));
    }
}

/// Sorting neither loses nor adds a node: every node occurs as often after
/// it as before.
pub proof fn lemma_sort_by_name_permutes(nodes: Seq<Json>)
    ensures
        sort_by_name(nodes).to_multiset() == nodes.to_multiset(),
        sort_by_name(nodes).len() == nodes.len(),
    decreases nodes.len(),
{
    broadcast use vstd::seq_lib::group_to_multiset_ensures;

    if nodes.len() > 0 {
        let rest = nodes.drop_first();
        let sorted = sort_by_name(rest);
        lemma_sort_by_name_permutes(rest);
        lemma_first_not_below(name_of(nodes[0]), sorted);
        vstd::seq_lib::to_multiset_insert(sorted, first_not_below(name_of(nodes[0]), sorted), nodes[0]);
        vstd::seq_lib::to_multiset_insert(rest, 0, nodes[0]);
        assert(rest.insert(0, nodes[0]) =~= nodes);
    } else {
        assert(sort_by_name(nodes) =~= nodes);
    }
}

/// Sorting is stable: the nodes with any one name stand in the order in
/// which they came.
pub proof fn lemma_sort_by_name_stable(nodes: Seq<Json>, name: Seq<char>)
    ensures
        sort_by_name(nodes).filter(|n: Json| name_of(n) == name) == nodes.filter(
            |n: Json| name_of(n) == name,
        ),
    decreases nodes.len(),
{
    let named = |n: Json| name_of(n) == name;
    if nodes.len() > 0 {
        let node = nodes[0];
        let rest = nodes.drop_first();
        let sorted = sort_by_name(rest);
        let at = first_not_below(name_of(node), sorted);
        lemma_sort_by_name_stable(rest, name);
        lemma_first_not_below(name_of(node), sorted);
        let before = sorted.take(at);
        let behind = sorted.skip(at);
        assert(sorted =~= before + behind);
        assert(insert_by_name(node, sorted) =~= before + (seq![node] + behind));
        Seq::filter_distributes_over_add(before, behind, named);
        Seq::filter_distributes_over_add(before, seq![node] + behind, named);
        behind.lemma_filter_prepend(node, named);
        rest.lemma_filter_prepend(node, named);
        assert(seq![node] + rest =~= nodes);
        if named(node) {
            assert forall|i: int| 0 <= i < before.len() implies !named(#[trigger] before[i]) by {
                assert(before[i] == sorted[i]);
                lemma_text_le_reflexive(name);
            }
            before.lemma_all_neg_filter_empty(named);
            assert(before.filter(named) =~= Seq::<Json>::empty());
            assert(sorted.filter(named) =~= behind.filter(named));
            assert(insert_by_name(node, sorted).filter(named) =~= seq![node] + sorted.filter(named));
        } else {
            assert(Seq::<Json>::empty() + behind.filter(named) =~= behind.filter(named));
        }
    } else {
        assert(sort_by_name(nodes) =~= nodes);
    }
}

/// In every exported document the nodes under `oneOf` stand in ascending
/// order of their names.
pub proof fn lemma_document_sorted(types: Seq<TypeRegistrationView>)
    ensures
        exported_document(types).has_member("oneOf"@),
        exported_document(types).member("oneOf"@) is Array,
        sorted_by_name(exported_document(types).member("oneOf"@)->Array_0),
{
    lemma_sort_by_name_sorted(schema_nodes(types));
}

/// Every field of a struct has its schema under its name in `properties`,
/// whatever its type path begins with.
pub proof fn lemma_properties_hold_every_field(
    fields: Seq<FieldView>,
    variant_index: Option<nat>,
    bounds: Map<Target, BoundsView>,
    i: int,
)
    requires
        0 <= i < fields.len(),
    ensures
        properties(fields, variant_index, bounds).dom().contains(fields[i].name->0),
    decreases fields.len(),
{
    if i < fields.len() - 1 {
        lemma_properties_hold_every_field(fields.drop_last(), variant_index, bounds, i);
    }
}

/// Where no two fields share a name, `properties` holds under the name of
/// each field the schema of that field.
pub proof fn lemma_properties_of_distinct_names(
    fields: Seq<FieldView>,
    variant_index: Option<nat>,
    bounds: Map<Target, BoundsView>,
    i: int,
)
    requires
        0 <= i < fields.len(),
        forall|a: int, b: int|
            0 <= a < b < fields.len() ==> (#[trigger] fields[a]).name->0 != (
            #[trigger] fields[b]).name->0,
    ensures
        properties(fields, variant_index, bounds)[fields[i].name->0] == field_schema(
            fields[i],
            variant_index,
            bounds,
        ),
    decreases fields.len(),
{
    if i < fields.len() - 1 {
        let rest = fields.drop_last();
        assert forall|a: int, b: int| 0 <= a < b < rest.len() implies (#[trigger] rest[a]).name->0
            != (#[trigger] rest[b]).name->0 by {
            assert(rest[a] == fields[a] && rest[b] == fields[b]);
        }
        lemma_properties_of_distinct_names(rest, variant_index, bounds, i);
        assert(rest[i] == fields[i]);
        assert(fields[i].name->0 != fields[fields.len() - 1].name->0);
    }
}

/// Whether a JSON value is the name of a field whose type path begins with
/// the optional-value marker (`optional` true) or does not (`optional`
/// false).
pub open spec fn names_field_where(fields: Seq<FieldView>, optional: bool, name: Json) -> bool {
    exists|i: int|
        0 <= i < fields.len() && is_optional_path((#[trigger] fields[i]).type_path) == optional
            && name == Json::String(fields[i].name->0)
}

/// The names listed by [`names_where`] are exactly the names of the fields
/// that it selects: each selected field is listed, and nothing else is.
pub proof fn lemma_names_where_exact(fields: Seq<FieldView>, optional: bool)
    ensures
        forall|i: int|
            0 <= i < fields.len() && is_optional_path((#[trigger] fields[i]).type_path) == optional
                ==> names_where(fields, optional).contains(Json::String(fields[i].name->0)),
        forall|k: int|
            0 <= k < names_where(fields, optional).len() ==> names_field_where(
                fields,
                optional,
                #[trigger] names_where(fields, optional)[k],
            ),
        names_where(fields, optional).len() <= fields.len(),
{
    let selected = |f: FieldView| is_optional_path(f.type_path) == optional;
    let kept = fields.filter(selected);
    let names = names_where(fields, optional);
    broadcast use vstd::seq_lib::group_filter_ensures;

    assert(names.len() == kept.len());
    assert forall|i: int|
        0 <= i < fields.len() && is_optional_path((#[trigger] fields[i]).type_path)
            == optional implies names.contains(Json::String(fields[i].name->0)) by {
        fields.lemma_filter_contains(selected, i);
        let k = choose|k: int| 0 <= k < kept.len() && kept[k] == fields[i];
        assert(names[k] == Json::String(fields[i].name->0));
    }
    assert forall|k: int| 0 <= k < names.len() implies names_field_where(
        fields,
        optional,
        #[trigger] names[k],
    ) by {
        fields.lemma_filter_pred(selected, k);
        assert(kept.contains(kept[k]));
        fields.lemma_filter_contains_rev(selected, kept[k]);
        let i = choose|i: int| 0 <= i < fields.len() && fields[i] == kept[k];
        assert(is_optional_path(fields[i].type_path) == optional);
        assert(names[k] == Json::String(fields[i].name->0));
    }
}

/// The node of a struct is an object schema whose `required` lists exactly
/// the fields whose type path does not begin with the optional-value marker;
/// `properties` holds every field, listed or not.
pub proof fn lemma_struct_required(reg: TypeRegistrationView)
    requires
        reg.descriptor is Struct,
    ensures
        ({
            let node = schema_node(reg);
            let fields = reg.descriptor->Struct_fields;
            let required = names_where(fields, false);
            &&& node.member("type"@) == Json::String("object"@)
            &&& node.member("additionalProperties"@) == Json::Bool(false)
            &&& node.member("required"@) == Json::Array(required)
            &&& node.member("properties"@) == Json::Object(properties(fields, None, reg.bounds))
            &&& forall|i: int|
                0 <= i < fields.len() && !is_optional_path((#[trigger] fields[i]).type_path)
                    ==> required.contains(Json::String(fields[i].name->0))
            &&& forall|k: int|
                0 <= k < required.len() ==> names_field_where(fields, false, #[trigger] required[k])
            &&& forall|i: int|
                0 <= i < fields.len() ==> properties(fields, None, reg.bounds).dom().contains(
                    (#[trigger] fields[i]).name->0,
                )
        }),
{
    lemma_key_texts();
    let fields = reg.descriptor->Struct_fields;
    lemma_names_where_exact(fields, false);
    assert forall|i: int| 0 <= i < fields.len() implies properties(
        fields,
        None,
        reg.bounds,
    ).dom().contains((#[trigger] fields[i]).name->0) by {
        lemma_properties_hold_every_field(fields, None, reg.bounds, i);
    }
}

/// The node of an enum whose variants are all unit variants is a string
/// schema whose `enum` lists the names of the variants in their order; it
/// has no `oneOf`.
pub proof fn lemma_unit_enum(reg: TypeRegistrationView)
    requires
        reg.descriptor is Enum,
        all_unit(reg.descriptor->Enum_variants),
    ensures
        ({
            let node = schema_node(reg);
            let variants = reg.descriptor->Enum_variants;
            &&& node.member("type"@) == Json::String("string"@)
            &&& node.has_member("enum"@)
            &&& node.member("enum"@) is Array
            &&& node.member("enum"@)->Array_0.len() == variants.len()
            &&& forall|i: int|
                0 <= i < variants.len() ==> (#[trigger] node.member("enum"@)->Array_0[i])
                    == Json::String(variants[i].name())
            &&& !node.has_member("oneOf"@)
        }),
{
    lemma_key_texts();
}

/// The node of an enum that has a variant with fields is an object schema
/// whose `oneOf` holds one schema for each variant, in their order, of the
/// kind of the variant; it has no `enum`.
pub proof fn lemma_mixed_enum(reg: TypeRegistrationView)
    requires
        reg.descriptor is Enum,
        !all_unit(reg.descriptor->Enum_variants),
    ensures
        ({
            let node = schema_node(reg);
            let variants = reg.descriptor->Enum_variants;
            &&& node.member("type"@) == Json::String("object"@)
            &&& node.has_member("oneOf"@)
            &&& node.member("oneOf"@) is Array
            &&& node.member("oneOf"@)->Array_0.len() == variants.len()
            &&& forall|i: int|
                0 <= i < variants.len() ==> (#[trigger] node.member("oneOf"@)->Array_0[i])
                    == variant_schema(variants[i], i as nat, reg.bounds)
            &&& !node.has_member("enum"@)
        }),
{
    lemma_key_texts();
}

/// The schema of a variant by its kind: a constant for a unit variant, an
/// array schema with one item for each field and none besides for a tuple
/// variant, an object schema without further properties for a struct
/// variant.
pub proof fn lemma_variant_schema_kind(
    variant: VariantView,
    index: nat,
    bounds: Map<Target, BoundsView>,
)
    ensures
        ({
            let schema = variant_schema(variant, index, bounds);
            match variant {
                VariantView::Unit { name } => {
                    &&& schema == Json::Object(map!["const"@ => Json::String(name)])
                },
                VariantView::Tuple { fields, .. } => {
                    &&& schema.member("type"@) == Json::String("array"@)
                    &&& schema.member("items"@) == Json::Bool(false)
                    &&& schema.member("prefixItems"@) is Array
                    &&& schema.member("prefixItems"@)->Array_0.len() == fields.len()
                    &&& forall|i: int|
                        0 <= i < fields.len() ==> (#[trigger] schema.member(
                            "prefixItems"@,
                        )->Array_0[i]) == field_schema(fields[i], Some(index), bounds)
                    &&& !schema.has_member("const"@)
                },
                VariantView::Struct { fields, .. } => {
                    &&& schema.member("type"@) == Json::String("object"@)
                    &&& schema.member("additionalProperties"@) == Json::Bool(false)
                    &&& schema.member("properties"@) == Json::Object(
                        properties(fields, Some(index), bounds),
                    )
                    &&& schema.member("required"@) == Json::Array(names_where(fields, true))
                    &&& !schema.has_member("const"@)
                },
            }
        }),
{
    lemma_key_texts();
    match variant {
        VariantView::Unit { name } => {
            assert(Map::<Seq<char>, Json>::empty().insert("const"@, Json::String(name))
                =~= map!["const"@ => Json::String(name)]);
        },
        _ => {},
    }
}

/// The schema of a field names its type and carries the declared bounds:
/// `minimum` and `maximum` are what is reported, each present exactly where
/// it is declared, and neither is present where nothing is reported.
pub proof fn lemma_bounds_injected(
    field: FieldView,
    variant_index: Option<nat>,
    bounds: Map<Target, BoundsView>,
)
    ensures
        ({
            let schema = field_schema(field, variant_index, bounds);
            let found = reported(bounds, Target { position: field.position, variant_index });
            &&& schema.member("type"@) == Json::String(field.type_path)
            &&& schema.has_member("minimum"@) <==> found is Some && found->0.minimum is Some
            &&& schema.has_member("maximum"@) <==> found is Some && found->0.maximum is Some
            &&& schema.has_member("minimum"@) ==> schema.member("minimum"@)
                == found->0.minimum->0
            &&& schema.has_member("maximum"@) ==> schema.member("maximum"@)
                == found->0.maximum->0
        }),
{
    lemma_key_texts();
}

/// Two exports of the same registered types into sinks that hold the same
/// bytes leave the same bytes and report the same count.
pub proof fn lemma_export_repeatable(
    types: Seq<TypeRegistrationView>,
    sink: Seq<u8>,
    after_first: Seq<u8>,
    first_count: usize,
    after_second: Seq<u8>,
    second_count: usize,
)
    requires
        exported(types, sink, after_first, first_count),
        exported(types, sink, after_second, second_count),
    ensures
        after_first == after_second,
        first_count == second_count,
{
}

/// The export of a registry without types reports no type and leaves the
/// document whose `oneOf` is empty.
pub proof fn lemma_export_of_nothing(before: Seq<u8>, after: Seq<u8>, count: usize)
    requires
        exported(Seq::empty(), before, after, count),
    ensures
        count == 0,
        after == before + pretty_bytes(document(Seq::empty())),
        document(Seq::empty()).member("$schema"@) == Json::String(SCHEMA_URI@),
        document(Seq::empty()).member("title"@) == Json::String(TITLE@),
        document(Seq::empty()).member("oneOf"@) == Json::Array(Seq::empty()),
{
    lemma_key_texts();
    assert(schema_nodes(Seq::empty()) =~= Seq::<Json>::empty());
}

} // verus!
