[package]
name = "bevy_export_jsonschema"
version = "0.1.0"
edition = "2021"
publish = false

[dependencies]
serde_json = "1"
bevy_app = "0.13"
bevy_ecs = "0.13"
bevy_reflect = "0.13"
