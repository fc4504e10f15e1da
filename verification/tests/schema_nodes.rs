use bevy_export_jsonschema::schema::{add_min_max, get_min_max};
use bevy_export_jsonschema::{
    export_type, BoundsProvider, Field, TypeDescriptor, TypeRegistration, Variant,
};
use serde_json::Value;

fn json(text: &str) -> Value {
    serde_json::from_str(text).unwrap()
}

fn named(name: &str, type_path: &str, position: usize) -> Field {
    Field { name: Some(name.to_string()), type_path: type_path.to_string(), position }
}

fn positional(type_path: &str, position: usize) -> Field {
    Field { name: None, type_path: type_path.to_string(), position }
}

fn registration(type_path: &str, descriptor: TypeDescriptor) -> TypeRegistration {
    TypeRegistration {
        type_path: type_path.to_string(),
        descriptor,
        is_component: false,
        is_resource: false,
        bounds: None,
    }
}

#[test]
fn player_struct_with_bounded_health() {
    let mut bounds = BoundsProvider::new();
    bounds.declare(1, None, Some(Value::from(0.0f32)), Some(Value::from(1.0f32)));
    let reg = TypeRegistration {
        type_path: "Player".to_string(),
        descriptor: TypeDescriptor::Struct {
            fields: vec![named("name", "string", 0), named("health", "f32", 1)],
        },
        is_component: true,
        is_resource: false,
        bounds: Some(bounds),
    };
    assert!(reg.is_well_formed());
    let expected = json(
        r#"{"type":"object","name":"Player","properties":{"name":{"type":"string"},"health":{"type":"f32","minimum":0.0,"maximum":1.0}},"additionalProperties":false,"required":["name","health"],"isComponent":true,"isResource":false}"#,
    );
    assert_eq!(export_type(&reg), expected);
}

#[test]
fn direction_unit_enum() {
    let names = ["North", "South", "East", "West"];
    let variants = names.iter().map(|n| Variant::Unit { name: n.to_string() }).collect();
    let reg = registration("Direction", TypeDescriptor::Enum { variants });
    let expected = json(
        r#"{"type":"string","name":"Direction","enum":["North","South","East","West"],"isComponent":false,"isResource":false}"#,
    );
    assert_eq!(export_type(&reg), expected);
}

#[test]
fn unit_enum_has_no_one_of() {
    let reg = registration(
        "Flag",
        TypeDescriptor::Enum {
            variants: vec![
                Variant::Unit { name: "Off".to_string() },
                Variant::Unit { name: "On".to_string() },
            ],
        },
    );
    let node = export_type(&reg);
    assert_eq!(node["type"], json(r#""string""#));
    assert_eq!(node["enum"], json(r#"["Off","On"]"#));
    assert!(node.get("oneOf").is_none());
}

#[test]
fn enum_without_variants_is_a_string_enum() {
    let reg = registration("Never", TypeDescriptor::Enum { variants: vec![] });
    let expected =
        json(r#"{"type":"string","name":"Never","enum":[],"isComponent":false,"isResource":false}"#);
    assert_eq!(export_type(&reg), expected);
}

#[test]
fn struct_required_leaves_out_optional_fields() {
    let reg = registration(
        "game::Settings",
        TypeDescriptor::Struct {
            fields: vec![
                named("volume", "f32", 0),
                named("nickname", "core::option::Option<alloc::string::String>", 1),
                named("level", "u8", 2),
            ],
        },
    );
    let node = export_type(&reg);
    assert_eq!(node["required"], json(r#"["volume","level"]"#));
    assert_eq!(
        node["properties"],
        json(
            r#"{"volume":{"type":"f32"},"nickname":{"type":"core::option::Option<alloc::string::String>"},"level":{"type":"u8"}}"#
        )
    );
    assert_eq!(node["additionalProperties"], json("false"));
    assert_eq!(node["type"], json(r#""object""#));
}

#[test]
fn optional_marker_is_a_test_on_the_text_alone() {
    let reg = registration(
        "Odd",
        TypeDescriptor::Struct {
            fields: vec![
                named("a", "core::option::OptionalThing", 0),
                named("b", "my::core::option::Option<u8>", 1),
            ],
        },
    );
    let node = export_type(&reg);
    assert_eq!(node["required"], json(r#"["b"]"#));
}

#[test]
fn struct_without_fields() {
    let reg = registration("Marker", TypeDescriptor::Struct { fields: vec![] });
    let expected = json(
        r#"{"type":"object","name":"Marker","properties":{},"additionalProperties":false,"required":[],"isComponent":false,"isResource":false}"#,
    );
    assert_eq!(export_type(&reg), expected);
}

#[test]
fn mixed_enum_has_one_schema_for_each_variant() {
    let reg = registration(
        "Shape",
        TypeDescriptor::Enum {
            variants: vec![
                Variant::Unit { name: "Empty".to_string() },
                Variant::Tuple {
                    name: "Circle".to_string(),
                    fields: vec![positional("f32", 0)],
                },
                Variant::Struct {
                    name: "Rect".to_string(),
                    fields: vec![
                        named("width", "f32", 0),
                        named("label", "core::option::Option<u8>", 1),
                    ],
                },
            ],
        },
    );
    let node = export_type(&reg);
    let expected = json(
        r#"{"type":"object","name":"Shape","oneOf":[
            {"const":"Empty"},
            {"type":"array","prefixItems":[{"type":"f32"}],"items":false},
            {"type":"object","properties":{"width":{"type":"f32"},"label":{"type":"core::option::Option<u8>"}},"additionalProperties":false,"required":["label"]}
        ],"isComponent":false,"isResource":false}"#,
    );
    assert_eq!(node, expected);
    assert_eq!(node["oneOf"].as_array().unwrap().len(), 3);
    assert!(node.get("enum").is_none());
}

#[test]
fn variant_fields_take_bounds_by_position_and_variant() {
    let mut bounds = BoundsProvider::new();
    bounds.declare(0, Some(1), Some(Value::from(2.0f32)), None);
    bounds.declare(1, Some(0), None, Some(Value::from(9.0f32)));
    bounds.declare(0, None, Some(Value::from(-1.0f32)), Some(Value::from(-1.0f32)));
    let reg = TypeRegistration {
        type_path: "Pair".to_string(),
        descriptor: TypeDescriptor::Enum {
            variants: vec![
                Variant::Tuple {
                    name: "First".to_string(),
                    fields: vec![positional("f32", 0), positional("f32", 1)],
                },
                Variant::Struct { name: "Second".to_string(), fields: vec![named("x", "f32", 0)] },
            ],
        },
        is_component: false,
        is_resource: true,
        bounds: Some(bounds),
    };
    let expected = json(
        r#"{"type":"object","name":"Pair","oneOf":[
            {"type":"array","prefixItems":[{"type":"f32"},{"type":"f32","maximum":9.0}],"items":false},
            {"type":"object","properties":{"x":{"type":"f32","minimum":2.0}},"additionalProperties":false,"required":[]}
        ],"isComponent":false,"isResource":true}"#,
    );
    assert_eq!(export_type(&reg), expected);
}

#[test]
fn tuple_struct_and_tuple() {
    let mut bounds = BoundsProvider::new();
    bounds.declare(1, None, Some(Value::from(0.5f32)), None);
    let fields = || vec![positional("u32", 0), positional("f32", 1)];
    let tuple_struct = TypeRegistration {
        type_path: "Wrapper".to_string(),
        descriptor: TypeDescriptor::TupleStruct { fields: fields() },
        is_component: true,
        is_resource: true,
        bounds: Some(bounds),
    };
    assert_eq!(
        export_type(&tuple_struct),
        json(
            r#"{"type":"array","name":"Wrapper","prefixItems":[{"type":"u32"},{"type":"f32","minimum":0.5}],"items":false,"isComponent":true,"isResource":true}"#
        )
    );
    let tuple = registration("(u32, f32)", TypeDescriptor::Tuple { fields: fields() });
    assert_eq!(
        export_type(&tuple),
        json(
            r#"{"type":"array","name":"(u32, f32)","prefixItems":[{"type":"u32"},{"type":"f32"}],"items":false,"isComponent":false,"isResource":false}"#
        )
    );
}

#[test]
fn list_fixed_array_map_and_value() {
    let list = registration(
        "alloc::vec::Vec<f32>",
        TypeDescriptor::List { element_type_path: "f32".to_string() },
    );
    assert_eq!(
        export_type(&list),
        json(
            r#"{"type":"array","name":"alloc::vec::Vec<f32>","items":{"type":"f32"},"isComponent":false,"isResource":false}"#
        )
    );
    let array = registration(
        "[u8; 4]",
        TypeDescriptor::FixedArray { element_type_path: "u8".to_string() },
    );
    assert_eq!(
        export_type(&array),
        json(
            r#"{"type":"array","name":"[u8; 4]","items":{"type":"u8"},"isComponent":false,"isResource":false}"#
        )
    );
    let map = registration(
        "HashMap<String, u8>",
        TypeDescriptor::KeyedMap { value_type_path: "u8".to_string() },
    );
    assert_eq!(
        export_type(&map),
        json(
            r#"{"type":"object","name":"HashMap<String, u8>","additionalProperties":{"type":"u8"},"isComponent":false,"isResource":false}"#
        )
    );
    let value = registration("f32", TypeDescriptor::Value { type_path: "f32".to_string() });
    assert_eq!(
        export_type(&value),
        json(r#"{"type":"f32","name":"f32","isComponent":false,"isResource":false}"#)
    );
}

#[test]
fn bounds_are_injected_each_on_its_own() {
    let mut bounds = BoundsProvider::new();
    bounds.declare(0, None, Some(Value::from(0.0f32)), Some(Value::from(1.0f32)));
    bounds.declare(1, None, Some(Value::from(0.25f32)), None);
    bounds.declare(2, None, None, Some(Value::from(8.0f32)));
    bounds.declare(3, None, None, None);
    let mut reg = registration("T", TypeDescriptor::Value { type_path: "T".to_string() });
    reg.bounds = Some(bounds);
    let plain = || json(r#"{"type":"f32"}"#);
    assert_eq!(
        add_min_max(plain(), &reg, 0, None),
        json(r#"{"type":"f32","minimum":0.0,"maximum":1.0}"#)
    );
    assert_eq!(add_min_max(plain(), &reg, 1, None), json(r#"{"type":"f32","minimum":0.25}"#));
    assert_eq!(add_min_max(plain(), &reg, 2, None), json(r#"{"type":"f32","maximum":8.0}"#));
    assert_eq!(add_min_max(plain(), &reg, 3, None), plain());
    assert_eq!(add_min_max(plain(), &reg, 4, None), plain());
    assert_eq!(add_min_max(plain(), &reg, 0, Some(0)), plain());
}

#[test]
fn nothing_is_injected_without_a_provider() {
    let reg = registration("T", TypeDescriptor::Value { type_path: "T".to_string() });
    assert!(get_min_max(&reg, 0, None).is_none());
    let node = add_min_max(json(r#"{"type":"f32"}"#), &reg, 0, None);
    assert!(node.get("minimum").is_none());
    assert!(node.get("maximum").is_none());
    assert_eq!(add_min_max(json("7"), &reg, 0, None), json("7"));
}

#[test]
fn a_bound_that_is_not_finite_is_null() {
    let mut bounds = BoundsProvider::new();
    bounds.declare(0, None, Some(Value::from(f32::NEG_INFINITY)), Some(Value::from(f32::NAN)));
    let mut reg = registration("T", TypeDescriptor::Value { type_path: "T".to_string() });
    reg.bounds = Some(bounds);
    assert_eq!(
        add_min_max(json(r#"{"type":"f32"}"#), &reg, 0, None),
        json(r#"{"type":"f32","minimum":null,"maximum":null}"#)
    );
}

#[test]
fn later_declaration_replaces_the_earlier_one() {
    let mut bounds = BoundsProvider::new();
    bounds.declare(0, None, Some(Value::from(1.0f32)), Some(Value::from(2.0f32)));
    bounds.declare(0, Some(3), Some(Value::from(5.0f32)), None);
    bounds.declare(0, None, None, Some(Value::from(4.0f32)));
    let found = bounds.get(0, None).unwrap();
    assert!(found.minimum.is_none());
    assert_eq!(found.maximum, Some(Value::from(4.0f32)));
    let found = bounds.get(0, Some(3)).unwrap();
    assert_eq!(found.minimum, Some(Value::from(5.0f32)));
    assert!(bounds.get(1, None).is_none());
    assert!(bounds.get(0, Some(2)).is_none());
    assert!(BoundsProvider::new().get(0, None).is_none());
}

#[test]
fn fields_with_one_name_share_a_property() {
    let mut reg = registration(
        "Twice",
        TypeDescriptor::Struct { fields: vec![named("x", "u8", 0), named("x", "u16", 1)] },
    );
    reg.is_resource = true;
    let node = export_type(&reg);
    assert_eq!(node["properties"], json(r#"{"x":{"type":"u16"}}"#));
    assert_eq!(node["required"], json(r#"["x","x"]"#));
    assert_eq!(node["isResource"], json("true"));
    assert_eq!(node["isComponent"], json("false"));
}

#[test]
fn flags_do_not_change_the_shape() {
    let make = |is_component: bool, is_resource: bool| {
        let mut reg = registration(
            "S",
            TypeDescriptor::Struct { fields: vec![named("a", "u8", 0)] },
        );
        reg.is_component = is_component;
        reg.is_resource = is_resource;
        let mut node = export_type(&reg);
        let members = node.as_object_mut().unwrap();
        assert_eq!(members.remove("isComponent"), Some(Value::Bool(is_component)));
        assert_eq!(members.remove("isResource"), Some(Value::Bool(is_resource)));
        node
    };
    let plain = make(false, false);
    assert_eq!(make(true, false), plain);
    assert_eq!(make(false, true), plain);
    assert_eq!(make(true, true), plain);
}
