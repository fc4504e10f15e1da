//! The mapping from one registered type to its schema node.

use vstd::prelude::*;
use crate::bounds::{index_view, reported, target_of, Bounds, BoundsView, Target};
use crate::descriptor::{
    fields_view, named_fields, well_formed_variants, variants_view, Field, FieldView, TypeDescriptor, TypeDescriptorView,
    TypeRegistration, TypeRegistrationView, Variant, VariantView,
};
use crate::json::{json_array, json_bool, json_insert, json_object, json_of, json_string, jsons_of, Json};
use crate::text::{has_optional_marker, is_optional_path};
use serde_json::Value;

verus! {

/// The schema that refers to a type by its path: `{ "type": type_path }`.
///
/// The path stands in the `type` keyword as it is. It names no primitive type
/// of JSON Schema; who reads the document resolves it.
pub open spec fn type_reference(type_path: Seq<char>) -> Json {
    Json::Object(Map::empty().insert("type"@, Json::String(type_path)))
}

/// An object with the member `key` set to `value`, where there is one.
pub open spec fn with_member(schema: Json, key: Seq<char>, value: Option<Json>) -> Json {
    match value {
        Some(v) => Json::Object(schema->Object_0.insert(key, v)),
        None => schema,
    }
}

/// A schema annotated with what is reported of its bounds: `minimum` and
/// `maximum` are set where they are declared, each on its own, and nothing
/// changes where nothing is reported.
pub open spec fn with_bounds(schema: Json, bounds: Option<BoundsView>) -> Json {
    match bounds {
        Some(b) => with_member(with_member(schema, "minimum"@, b.minimum), "maximum"@, b.maximum),
        None => schema,
    }
}

/// The schema of one field: a reference to its type, annotated with the
/// bounds declared for its position.
pub open spec fn field_schema(
    field: FieldView,
    variant_index: Option<nat>,
    bounds: Map<Target, BoundsView>,
) -> Json {
    with_bounds(
        type_reference(field.type_path),
        reported(bounds, Target { position: field.position, variant_index }),
    )
}

/// The schemas of the fields of a tuple, in order.
pub open spec fn prefix_items(
    fields: Seq<FieldView>,
    variant_index: Option<nat>,
    bounds: Map<Target, BoundsView>,
) -> Seq<Json> {
    fields.map_values(|f: FieldView| field_schema(f, variant_index, bounds))
}

/// The schemas of the fields of a struct, by name. Of two fields with one
/// name, the later one holds.
pub open spec fn properties(
    fields: Seq<FieldView>,
    variant_index: Option<nat>,
    bounds: Map<Target, BoundsView>,
) -> Map<Seq<char>, Json>
    decreases fields.len(),
{
    if fields.len() == 0 {
        Map::empty()
    } else {
        properties(fields.drop_last(), variant_index, bounds).insert(
            fields.last().name->0,
            field_schema(fields.last(), variant_index, bounds),
        )
    }
}

/// The names, in order, of the fields whose type path begins with the
/// optional-value marker (`optional` true) or does not (`optional` false).
pub open spec fn names_where(fields: Seq<FieldView>, optional: bool) -> Seq<Json> {
    fields.filter(|f: FieldView| is_optional_path(f.type_path) == optional).map_values(
        |f: FieldView| Json::String(f.name->0),
    )
}

/// The members `type` and `name` that every node begins with.
pub open spec fn node_head(kind: Seq<char>, type_path: Seq<char>) -> Map<Seq<char>, Json> {
    Map::empty().insert("type"@, Json::String(kind)).insert("name"@, Json::String(type_path))
}

/// Whether every variant of an enum is a unit variant.
pub open spec fn all_unit(variants: Seq<VariantView>) -> bool {
    forall|i: int| 0 <= i < variants.len() ==> (#[trigger] variants[i]) is Unit
}

/// The names of the variants of an enum, in order.
pub open spec fn variant_names(variants: Seq<VariantView>) -> Seq<Json> {
    variants.map_values(|v: VariantView| Json::String(v.name()))
}

/// The schema of one variant of an enum that is not made of unit variants
/// alone.
///
/// The `required` list of a struct variant holds the fields whose type path
/// *does* begin with the optional-value marker: the reverse of what it holds
/// for a struct.
pub open spec fn variant_schema(
    variant: VariantView,
    index: nat,
    bounds: Map<Target, BoundsView>,
) -> Json {
    match variant {
        VariantView::Unit { name } => Json::Object(
            Map::empty().insert("const"@, Json::String(name)),
        ),
        VariantView::Tuple { fields, .. } => Json::Object(
            Map::empty().insert("type"@, Json::String("array"@)).insert(
                "prefixItems"@,
                Json::Array(prefix_items(fields, Some(index), bounds)),
            ).insert("items"@, Json::Bool(false)),
        ),
        VariantView::Struct { fields, .. } => Json::Object(
            Map::empty().insert("type"@, Json::String("object"@)).insert(
                "properties"@,
                Json::Object(properties(fields, Some(index), bounds)),
            ).insert("additionalProperties"@, Json::Bool(false)).insert(
                "required"@,
                Json::Array(names_where(fields, true)),
            ),
        ),
    }
}

/// The schemas of the variants of an enum, in order.
pub open spec fn variant_schemas(
    variants: Seq<VariantView>,
    bounds: Map<Target, BoundsView>,
) -> Seq<Json> {
    Seq::new(variants.len(), |i: int| variant_schema(variants[i], i as nat, bounds))
}

/// The members of a node that depend on the shape of the type.
pub open spec fn shape_members(reg: TypeRegistrationView) -> Map<Seq<char>, Json> {
    match reg.descriptor {
        TypeDescriptorView::Struct { fields } => node_head("object"@, reg.type_path).insert(
            "properties"@,
            Json::Object(properties(fields, None, reg.bounds)),
        ).insert("additionalProperties"@, Json::Bool(false)).insert(
            "required"@,
            Json::Array(names_where(fields, false)),
        ),
        TypeDescriptorView::Enum { variants } => if all_unit(variants) {
            node_head("string"@, reg.type_path).insert(
                "enum"@,
                Json::Array(variant_names(variants)),
            )
        } else {
            node_head("object"@, reg.type_path).insert(
                "oneOf"@,
                Json::Array(variant_schemas(variants, reg.bounds)),
            )
        },
        TypeDescriptorView::TupleStruct { fields } => tuple_members(reg.type_path, fields, reg.bounds),
        TypeDescriptorView::List { element_type_path } => node_head("array"@, reg.type_path).insert(
            "items"@,
            type_reference(element_type_path),
        ),
        TypeDescriptorView::FixedArray { element_type_path } => node_head(
            "array"@,
            reg.type_path,
        ).insert("items"@, type_reference(element_type_path)),
        TypeDescriptorView::KeyedMap { value_type_path } => node_head("object"@, reg.type_path).insert(
            "additionalProperties"@,
            type_reference(value_type_path),
        ),
        TypeDescriptorView::Tuple { fields } => tuple_members(reg.type_path, fields, reg.bounds),
        TypeDescriptorView::Value { type_path } => node_head(type_path, reg.type_path),
    }
}

/// The members of the node of a tuple or a tuple struct.
pub open spec fn tuple_members(
    type_path: Seq<char>,
    fields: Seq<FieldView>,
    bounds: Map<Target, BoundsView>,
) -> Map<Seq<char>, Json> {
    node_head("array"@, type_path).insert(
        "prefixItems"@,
        Json::Array(prefix_items(fields, None, bounds)),
    ).insert("items"@, Json::Bool(false))
}

/// The schema node of a registered type: the members that its shape gives,
/// and `isComponent` and `isResource` from what it is registered as.
pub open spec fn schema_node(reg: TypeRegistrationView) -> Json {
    Json::Object(
        shape_members(reg).insert("isComponent"@, Json::Bool(reg.is_component)).insert(
            "isResource"@,
            Json::Bool(reg.is_resource),
        ),
    )
}

/// Looks up the bounds declared for a field of a registered type.
pub fn get_min_max(reg: &TypeRegistration, field_index: usize, variant_index: Option<usize>) -> (found:
    Option<&Bounds>)
    ensures
        match found {
            Some(bounds) => reported(reg@.bounds, target_of(field_index, variant_index)) == Some(
                bounds@,
            ),
            None => reported(reg@.bounds, target_of(field_index, variant_index)) is None,
        },
{
    match &reg.bounds {
        Some(provider) => provider.get(field_index, variant_index),
        None => None,
    }
}

/// Annotates the schema of a field with the bounds declared for it.
pub fn add_min_max(
    val: Value,
    reg: &TypeRegistration,
    field_index: usize,
    variant_index: Option<usize>,
) -> (annotated: Value)
    requires
        reported(reg@.bounds, target_of(field_index, variant_index)) is Some ==> json_of(val) is Object,
    ensures
        json_of(annotated) == with_bounds(
            json_of(val),
            reported(reg@.bounds, target_of(field_index, variant_index)),
        ),
{
    match get_min_max(reg, field_index, variant_index) {
        None => val,
        Some(bounds) => {
            let mut annotated = val;
            if let Some(minimum) = &bounds.minimum {
                json_insert(&mut annotated, "minimum", minimum.clone());
            }
            if let Some(maximum) = &bounds.maximum {
                json_insert(&mut annotated, "maximum", maximum.clone());
            }
            annotated
        },
    }
}

/// When a field is added at the end of a sequence, its name is added at the
/// end of the names selected from the sequence, if it is selected itself.
proof fn lemma_names_where_push(fields: Seq<FieldView>, field: FieldView, optional: bool)
    ensures
        names_where(fields.push(field), optional) == if is_optional_path(field.type_path)
            == optional {
            names_where(fields, optional).push(Json::String(field.name->0))
        } else {
            names_where(fields, optional)
        },
{
    let selected = |f: FieldView| is_optional_path(f.type_path) == optional;
    fields.lemma_filter_push(field, selected);
    if selected(field) {
        assert(fields.filter(selected).push(field).map_values(
            |f: FieldView| Json::String(f.name->0),
        ) =~= fields.filter(selected).map_values(|f: FieldView| Json::String(f.name->0)).push(
            Json::String(field.name->0),
        ));
    }
}

/// The name of a field that has one.
fn name_of(field: &Field) -> (name: &str)
    requires
        field@.name is Some,
    ensures
        name@ == field@.name->0,
{
    field.name.as_ref().unwrap().as_str()
}

/// Builds the schema that refers to a type by its path.
fn type_reference_of(type_path: &str) -> (schema: Value)
    ensures
        json_of(schema) == type_reference(type_path@),
{
    let mut schema = json_object();
    json_insert(&mut schema, "type", json_string(type_path));
    schema
}

/// Builds the schema of one field.
fn field_schema_of(field: &Field, reg: &TypeRegistration, variant_index: Option<usize>) -> (schema:
    Value)
    ensures
        json_of(schema) == field_schema(field@, index_view(variant_index), reg@.bounds),
{
    let schema = type_reference_of(field.type_path.as_str());
    add_min_max(schema, reg, field.position, variant_index)
}

/// Builds the array of the schemas of the fields of a tuple.
fn prefix_items_of(fields: &Vec<Field>, reg: &TypeRegistration, variant_index: Option<usize>) -> (items:
    Value)
    ensures
        json_of(items) == Json::Array(
            prefix_items(fields_view(fields@), index_view(variant_index), reg@.bounds),
        ),
{
    let mut items: Vec<Value> = Vec::new();
    let mut i: usize = 0;
    while i < fields.len()
        invariant
            i <= fields.len(),
            items@.len() == i,
            forall|k: int|
                0 <= k < i ==> json_of(#[trigger] items@[k]) == field_schema(
                    fields@[k]@,
                    index_view(variant_index),
                    reg@.bounds,
                ),
        decreases fields.len() - i,
    {
        items.push(field_schema_of(&fields[i], reg, variant_index));
        i += 1;
    }
    assert(jsons_of(items@) =~= prefix_items(
        fields_view(fields@),
        index_view(variant_index),
        reg@.bounds,
    ));
    json_array(items)
}

/// Builds the object of the schemas of the fields of a struct.
fn properties_of(fields: &Vec<Field>, reg: &TypeRegistration, variant_index: Option<usize>) -> (object:
    Value)
    requires
        named_fields(fields_view(fields@)),
    ensures
        json_of(object) == Json::Object(
            properties(fields_view(fields@), index_view(variant_index), reg@.bounds),
        ),
{
    let ghost all = fields_view(fields@);
    let mut object = json_object();
    let mut i: usize = 0;
    while i < fields.len()
        invariant
            i <= fields.len(),
            all == fields_view(fields@),
            named_fields(all),
            json_of(object) == Json::Object(
                properties(all.take(i as int), index_view(variant_index), reg@.bounds),
            ),
        decreases fields.len() - i,
    {
        let field = &fields[i];
        assert(all[i as int].is_named_at(i as int));
        let schema = field_schema_of(field, reg, variant_index);
        json_insert(&mut object, name_of(field), schema);
        proof {
            assert(all.take(i + 1).drop_last() =~= all.take(i as int));
            assert(all.take(i + 1).last() == field@);
        }
        i += 1;
    }
    assert(all.take(i as int) =~= all);
    object
}

/// Builds the array of the names of the fields whose type path begins with
/// the optional-value marker (`optional` true) or does not (`optional` false).
fn names_where_of(fields: &Vec<Field>, optional: bool) -> (names: Value)
    requires
        named_fields(fields_view(fields@)),
    ensures
        json_of(names) == Json::Array(names_where(fields_view(fields@), optional)),
{
    let ghost all = fields_view(fields@);
    let mut names: Vec<Value> = Vec::new();
    let mut i: usize = 0;
    assert(all.take(0).filter(|f: FieldView| is_optional_path(f.type_path) == optional) =~= Seq::empty()) by {
        reveal(Seq::filter);
    }
    while i < fields.len()
        invariant
            i <= fields.len(),
            all == fields_view(fields@),
            named_fields(all),
            jsons_of(names@) =~= names_where(all.take(i as int), optional),
        decreases fields.len() - i,
    {
        let field = &fields[i];
        assert(all[i as int].is_named_at(i as int));
        proof {
            lemma_names_where_push(all.take(i as int), field@, optional);
            assert(all.take(i + 1) =~= all.take(i as int).push(field@));
        }
        if has_optional_marker(field.type_path.as_str()) == optional {
            let ghost before = names@;
            names.push(json_string(name_of(field)));
            assert(jsons_of(names@) =~= jsons_of(before).push(Json::String(field@.name->0)));
        }
        i += 1;
    }
    assert(all.take(i as int) =~= all);
    json_array(names)
}

/// The name of a variant.
fn variant_name(variant: &Variant) -> (name: &str)
    ensures
        name@ == variant@.name(),
{
    match variant {
        Variant::Unit { name } => name.as_str(),
        Variant::Tuple { name, .. } => name.as_str(),
        Variant::Struct { name, .. } => name.as_str(),
    }
}

/// Tests whether every variant of an enum is a unit variant.
fn all_unit_of(variants: &Vec<Variant>) -> (simple: bool)
    ensures
        simple == all_unit(variants_view(variants@)),
{
    let mut i: usize = 0;
    while i < variants.len()
        invariant
            i <= variants.len(),
            forall|k: int| 0 <= k < i ==> (#[trigger] variants_view(variants@)[k]) is Unit,
        decreases variants.len() - i,
    {
        match &variants[i] {
            Variant::Unit { .. } => {},
            _ => {
                assert(!(variants_view(variants@)[i as int] is Unit));
                return false;
            },
        }
        i += 1;
    }
    true
}

/// Builds the array of the names of the variants of an enum.
fn variant_names_of(variants: &Vec<Variant>) -> (names: Value)
    ensures
        json_of(names) == Json::Array(variant_names(variants_view(variants@))),
{
    let mut names: Vec<Value> = Vec::new();
    let mut i: usize = 0;
    while i < variants.len()
        invariant
            i <= variants.len(),
            names@.len() == i,
            forall|k: int|
                0 <= k < i ==> json_of(#[trigger] names@[k]) == Json::String(variants@[k]@.name()),
        decreases variants.len() - i,
    {
        names.push(json_string(variant_name(&variants[i])));
        i += 1;
    }
    assert(jsons_of(names@) =~= variant_names(variants_view(variants@)));
    json_array(names)
}

/// Builds the schema of one variant of an enum that is not made of unit
/// variants alone.
fn variant_schema_of(variant: &Variant, index: usize, reg: &TypeRegistration) -> (schema: Value)
    requires
        variant@.well_formed(),
    ensures
        json_of(schema) == variant_schema(variant@, index as nat, reg@.bounds),
{
    let mut schema = json_object();
    match variant {
        Variant::Unit { name } => {
            json_insert(&mut schema, "const", json_string(name.as_str()));
        },
        Variant::Tuple { fields, .. } => {
            json_insert(&mut schema, "type", json_string("array"));
            json_insert(&mut schema, "prefixItems", prefix_items_of(fields, reg, Some(index)));
            json_insert(&mut schema, "items", json_bool(false));
        },
        Variant::Struct { fields, .. } => {
            json_insert(&mut schema, "type", json_string("object"));
            json_insert(&mut schema, "properties", properties_of(fields, reg, Some(index)));
            json_insert(&mut schema, "additionalProperties", json_bool(false));
            json_insert(&mut schema, "required", names_where_of(fields, true));
        },
    }
    schema
}

/// Builds the array of the schemas of the variants of an enum.
fn variant_schemas_of(variants: &Vec<Variant>, reg: &TypeRegistration) -> (schemas: Value)
    requires
        well_formed_variants(variants_view(variants@)),
    ensures
        json_of(schemas) == Json::Array(variant_schemas(variants_view(variants@), reg@.bounds)),
{
    let mut schemas: Vec<Value> = Vec::new();
    let mut i: usize = 0;
    while i < variants.len()
        invariant
            i <= variants.len(),
            schemas@.len() == i,
            well_formed_variants(variants_view(variants@)),
            forall|k: int|
                0 <= k < i ==> json_of(#[trigger] schemas@[k]) == variant_schema(
                    variants@[k]@,
                    k as nat,
                    reg@.bounds,
                ),
        decreases variants.len() - i,
    {
        assert(variants_view(variants@)[i as int].well_formed());
        schemas.push(variant_schema_of(&variants[i], i, reg));
        i += 1;
    }
    assert(jsons_of(schemas@) =~= variant_schemas(variants_view(variants@), reg@.bounds));
    json_array(schemas)
}

/// Begins a node with its members `type` and `name`.
fn node_head_of(kind: &str, type_path: &str) -> (node: Value)
    ensures
        json_of(node) == Json::Object(node_head(kind@, type_path@)),
{
    let mut node = json_object();
    json_insert(&mut node, "type", json_string(kind));
    json_insert(&mut node, "name", json_string(type_path));
    node
}

/// Builds the schema node of a registered type.
///
/// The node depends on the registration alone: its shape decides the kind of
/// schema, the declared bounds annotate the schemas of its fields, and what
/// it is registered as is recorded beside them without changing the rest.
pub fn export_type(reg: &TypeRegistration) -> (schema: Value)
    requires
        reg@.well_formed(),
    ensures
        json_of(schema) == schema_node(reg@),
{
    let path = reg.type_path.as_str();
    let mut schema = match &reg.descriptor {
        TypeDescriptor::Struct { fields } => {
            let mut node = node_head_of("object", path);
            json_insert(&mut node, "properties", properties_of(fields, reg, None));
            json_insert(&mut node, "additionalProperties", json_bool(false));
            json_insert(&mut node, "required", names_where_of(fields, false));
            node
        },
        TypeDescriptor::Enum { variants } => {
            if all_unit_of(variants) {
                let mut node = node_head_of("string", path);
                json_insert(&mut node, "enum", variant_names_of(variants));
                node
            } else {
                let mut node = node_head_of("object", path);
                json_insert(&mut node, "oneOf", variant_schemas_of(variants, reg));
                node
            }
        },
        TypeDescriptor::TupleStruct { fields } => {
            let mut node = node_head_of("array", path);
            json_insert(&mut node, "prefixItems", prefix_items_of(fields, reg, None));
            json_insert(&mut node, "items", json_bool(false));
            node
        },
        TypeDescriptor::List { element_type_path } => {
            let mut node = node_head_of("array", path);
            json_insert(&mut node, "items", type_reference_of(element_type_path.as_str()));
            node
        },
        TypeDescriptor::FixedArray { element_type_path } => {
            let mut node = node_head_of("array", path);
            json_insert(&mut node, "items", type_reference_of(element_type_path.as_str()));
            node
        },
        TypeDescriptor::KeyedMap { value_type_path } => {
            let mut node = node_head_of("object", path);
            json_insert(
                &mut node,
                "additionalProperties",
                type_reference_of(value_type_path.as_str()),
            );
            node
        },
        TypeDescriptor::Tuple { fields } => {
            let mut node = node_head_of("array", path);
            json_insert(&mut node, "prefixItems", prefix_items_of(fields, reg, None));
            json_insert(&mut node, "items", json_bool(false));
            node
        },
        TypeDescriptor::Value { type_path } => node_head_of(type_path.as_str(), path),
    };
    json_insert(&mut schema, "isComponent", json_bool(reg.is_component));
    json_insert(&mut schema, "isResource", json_bool(reg.is_resource));
    schema
}

/// The keys of the document are distinct texts: what tells them apart is
/// their length or one of their first two characters.
pub proof fn lemma_key_texts()
    ensures
        "type"@.len() == 4 && "type"@[0] == 't',
        "name"@.len() == 4 && "name"@[0] == 'n',
        "enum"@.len() == 4 && "enum"@[0] == 'e',
        "oneOf"@.len() == 5 && "oneOf"@[0] == 'o',
        "items"@.len() == 5 && "items"@[0] == 'i',
        "const"@.len() == 5 && "const"@[0] == 'c',
        "title"@.len() == 5 && "title"@[0] == 't',
        "minimum"@.len() == 7 && "minimum"@[1] == 'i',
        "maximum"@.len() == 7 && "maximum"@[1] == 'a',
        "$schema"@.len() == 7 && "$schema"@[1] == 's',
        "required"@.len() == 8,
        "properties"@.len() == 10 && "properties"@[0] == 'p',
        "isResource"@.len() == 10 && "isResource"@[0] == 'i',
        "prefixItems"@.len() == 11 && "prefixItems"@[0] == 'p',
        "isComponent"@.len() == 11 && "isComponent"@[0] == 'i',
        "additionalProperties"@.len() == 20,
{
    reveal_strlit("type");
    reveal_strlit("name");
    reveal_strlit("enum");
    reveal_strlit("oneOf");
    reveal_strlit("items");
    reveal_strlit("const");
    reveal_strlit("title");
    reveal_strlit("minimum");
    reveal_strlit("maximum");
    reveal_strlit("$schema");
    reveal_strlit("required");
    reveal_strlit("properties");
    reveal_strlit("isResource");
    reveal_strlit("prefixItems");
    reveal_strlit("isComponent");
    reveal_strlit("additionalProperties");
}

/// Every schema node has a `name`, the type path of the registered type.
pub proof fn lemma_node_has_name(reg: TypeRegistrationView)
    ensures
        schema_node(reg).has_string_member("name"@),
        schema_node(reg).string_member("name"@) == reg.type_path,
{
    lemma_key_texts();
}

} // verus!
