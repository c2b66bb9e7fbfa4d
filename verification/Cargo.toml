[package]
name = "schema_registry_converter"
version = "0.1.0"
edition = "2021"
publish = false

[dependencies]
scc = "*"
protofish = "*"
serde_json = "*"
avro-rs = "*"
bytes = "*"
curl = { version = "*", default-features = false, features = ["static-curl"] }
