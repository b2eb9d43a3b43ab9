[package]
name = "component_routing"
version = "0.1.0"
edition = "2021"
publish = false

[dependencies]
bytes = "*"
serde = "*"
serde_derive = "*"
thiserror = "*"
anyhow = "*"
