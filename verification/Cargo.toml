[package]
name = "kirill"
version = "0.1.0"
edition = "2021"
publish = false

[dependencies]
clean-path = "=0.2.1"
die = "=0.2.0"
getopts = "=0.2.24"
json-schema-validator-core = "=1.0.0"
serde_json = "=1.0.154"
serde_json5 = "=0.2.1"
walkdir = "=2.5.0"

[dev-dependencies]
regex = "=1.13.1"
