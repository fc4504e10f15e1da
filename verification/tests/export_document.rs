use bevy_export_jsonschema::document::{
    build_document, export_nodes, node_name, sort_nodes, SCHEMA_URI, TITLE,
};
use bevy_export_jsonschema::export::write_rendered;
use bevy_export_jsonschema::{
    BoundsProvider, ExportError, ExportTypesExt, Field, TypeDescriptor, TypeRegistration,
    TypeRegistry, Variant,
};
use serde_json::Value;

fn json(text: &str) -> Value {
    serde_json::from_str(text).unwrap()
}

fn value_type(type_path: &str) -> TypeRegistration {
    TypeRegistration {
        type_path: type_path.to_string(),
        descriptor: TypeDescriptor::Value { type_path: type_path.to_string() },
        is_component: false,
        is_resource: false,
        bounds: None,
    }
}

fn sample_registry() -> TypeRegistry {
    let mut bounds = BoundsProvider::new();
    bounds.declare(1, None, Some(Value::from(0.0f32)), Some(Value::from(1.0f32)));
    let player = TypeRegistration {
        type_path: "game::Player".to_string(),
        descriptor: TypeDescriptor::Struct {
            fields: vec![
                Field { name: Some("name".to_string()), type_path: "string".to_string(), position: 0 },
                Field { name: Some("health".to_string()), type_path: "f32".to_string(), position: 1 },
            ],
        },
        is_component: true,
        is_resource: false,
        bounds: Some(bounds),
    };
    let direction = TypeRegistration {
        type_path: "game::Direction".to_string(),
        descriptor: TypeDescriptor::Enum {
            variants: vec![
                Variant::Unit { name: "North".to_string() },
                Variant::Unit { name: "South".to_string() },
            ],
        },
        is_component: false,
        is_resource: false,
        bounds: None,
    };
    let mut registry = TypeRegistry::new();
    registry.register(value_type("u8"));
    registry.register(player);
    registry.register(value_type("f32"));
    registry.register(direction);
    registry.register(value_type("Zone"));
    registry
}

fn names(nodes: &[Value]) -> Vec<String> {
    nodes.iter().map(|n| n["name"].as_str().unwrap().to_string()).collect()
}

#[test]
fn export_writes_the_sorted_document() {
    let mut registry = sample_registry();
    let mut sink: Vec<u8> = Vec::new();
    let count = registry.export_types(&mut sink).unwrap();
    assert_eq!(count, 5);
    assert_eq!(registry.len(), 5);
    let expected = json(
        r#"{
          "$schema": "https://json-schema.org/draft/2020-12/schema",
          "title": "bevy game schema",
          "oneOf": [
            {"type":"Zone","name":"Zone","isComponent":false,"isResource":false},
            {"type":"f32","name":"f32","isComponent":false,"isResource":false},
            {"type":"string","name":"game::Direction","enum":["North","South"],"isComponent":false,"isResource":false},
            {"type":"object","name":"game::Player","properties":{"name":{"type":"string"},"health":{"type":"f32","minimum":0.0,"maximum":1.0}},"additionalProperties":false,"required":["name","health"],"isComponent":true,"isResource":false},
            {"type":"u8","name":"u8","isComponent":false,"isResource":false}
          ]
        }"#,
    );
    assert_eq!(sink, serde_json::to_vec_pretty(&expected).unwrap());
    let written: Value = serde_json::from_slice(&sink).unwrap();
    assert_eq!(written, expected);
}

#[test]
fn export_of_an_empty_registry() {
    let mut registry = TypeRegistry::new();
    let mut sink: Vec<u8> = Vec::new();
    assert_eq!(registry.export_types(&mut sink).unwrap(), 0);
    let text = String::from_utf8(sink).unwrap();
    assert_eq!(
        text,
        "{\n  \"$schema\": \"https://json-schema.org/draft/2020-12/schema\",\n  \"oneOf\": [],\n  \"title\": \"bevy game schema\"\n}"
    );
}

#[test]
fn export_appends_to_what_the_sink_holds() {
    let mut registry = sample_registry();
    let mut alone: Vec<u8> = Vec::new();
    registry.export_types(&mut alone).unwrap();
    let mut sink: Vec<u8> = b"// header\n".to_vec();
    registry.export_types(&mut sink).unwrap();
    assert_eq!(&sink[..10], b"// header\n");
    assert_eq!(&sink[10..], &alone[..]);
}

#[test]
fn exporting_twice_gives_the_same_bytes() {
    let mut registry = sample_registry();
    let mut first: Vec<u8> = Vec::new();
    let mut second: Vec<u8> = Vec::new();
    assert_eq!(registry.export_types(&mut first).unwrap(), 5);
    assert_eq!(registry.export_types(&mut second).unwrap(), 5);
    assert!(!first.is_empty());
    assert_eq!(first, second);
    let mut third: Vec<u8> = Vec::new();
    sample_registry().export_types(&mut third).unwrap();
    assert_eq!(first, third);
}

#[test]
fn exported_names_never_decrease() {
    let mut registry = TypeRegistry::new();
    for path in ["m", "b::Z", "a", "b", "B", "é", "zz", "b::A", "a::b", "ab", "a", "~"] {
        registry.register(value_type(path));
    }
    let mut sink: Vec<u8> = Vec::new();
    assert_eq!(registry.export_types(&mut sink).unwrap(), 12);
    let written: Value = serde_json::from_slice(&sink).unwrap();
    let listed = names(written["oneOf"].as_array().unwrap());
    assert_eq!(
        listed,
        vec!["B", "a", "a", "a::b", "ab", "b", "b::A", "b::Z", "m", "zz", "~", "é"]
    );
    for pair in listed.windows(2) {
        assert!(pair[0] <= pair[1]);
    }
}

#[test]
fn sort_keeps_the_order_of_equal_names() {
    let nodes = vec![
        json(r#"{"name":"b","rank":1}"#),
        json(r#"{"name":"a","rank":2}"#),
        json(r#"{"name":"b","rank":3}"#),
        json(r#"{"name":"a","rank":4}"#),
        json(r#"{"name":"","rank":5}"#),
        json(r#"{"name":"b","rank":6}"#),
    ];
    let sorted = sort_nodes(nodes);
    let ranks: Vec<i64> = sorted.iter().map(|n| n["rank"].as_i64().unwrap()).collect();
    assert_eq!(ranks, vec![5, 2, 4, 1, 3, 6]);
    assert_eq!(sort_nodes(vec![]), Vec::<Value>::new());
    let one = vec![json(r#"{"name":"only"}"#)];
    assert_eq!(sort_nodes(one.clone()), one);
}

#[test]
fn node_name_reads_a_string_member() {
    assert_eq!(node_name(&json(r#"{"name":"game::Player","type":"object"}"#)), Some("game::Player".to_string()));
    assert_eq!(node_name(&json(r#"{"name":""}"#)), Some(String::new()));
    assert_eq!(node_name(&json(r#"{"type":"object"}"#)), None);
    assert_eq!(node_name(&json(r#"{"name":7}"#)), None);
    assert_eq!(node_name(&json(r#"{"name":null}"#)), None);
    assert_eq!(node_name(&json(r#"["name"]"#)), None);
    assert_eq!(node_name(&json(r#""name""#)), None);
}

#[test]
fn nodes_come_in_the_order_of_the_registry() {
    let registry = sample_registry();
    let nodes = export_nodes(&registry.types);
    assert_eq!(names(&nodes), vec!["u8", "game::Player", "f32", "game::Direction", "Zone"]);
    assert_eq!(export_nodes(&vec![]), Vec::<Value>::new());
}

#[test]
fn document_wraps_the_nodes_as_they_come() {
    assert_eq!(SCHEMA_URI, "https://json-schema.org/draft/2020-12/schema");
    assert_eq!(TITLE, "bevy game schema");
    let nodes = vec![json(r#"{"name":"b"}"#), json(r#"{"name":"a"}"#)];
    let doc = build_document(nodes);
    assert_eq!(
        doc,
        json(
            r#"{"$schema":"https://json-schema.org/draft/2020-12/schema","title":"bevy game schema","oneOf":[{"name":"b"},{"name":"a"}]}"#
        )
    );
    assert_eq!(doc.as_object().unwrap().len(), 3);
}

#[test]
fn a_failed_serialization_leaves_the_sink_alone() {
    let error = serde_json::from_str::<Value>("{").unwrap_err();
    let message = error.to_string();
    let mut sink: Vec<u8> = vec![1, 2, 3];
    match write_rendered(Err(error), 4, &mut sink) {
        Err(ExportError::Serialization(inner)) => assert_eq!(inner.to_string(), message),
        Ok(_) => panic!("an error was handed in"),
    }
    assert_eq!(sink, vec![1, 2, 3]);
}

#[test]
fn rendered_bytes_are_appended() {
    let mut sink: Vec<u8> = vec![1, 2, 3];
    match write_rendered(Ok(vec![4, 5]), 9, &mut sink) {
        Ok(count) => assert_eq!(count, 9),
        Err(_) => panic!("bytes were handed in"),
    }
    assert_eq!(sink, vec![1, 2, 3, 4, 5]);
    let mut empty: Vec<u8> = Vec::new();
    assert!(matches!(write_rendered(Ok(vec![]), 0, &mut empty), Ok(0)));
    assert!(empty.is_empty());
}
