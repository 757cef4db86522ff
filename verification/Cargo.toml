[package]
name = "idlgen"
version = "0.1.0"
edition = "2021"
publish = false

[dependencies]
heck = "=0.3.3"
anyhow = "=1.0.104"
serde_json = "=1.0.151"

[dependencies.anchor-syn]
version = "=0.24.2"
features = ["idl"]

[dependencies.tera]
version = "=1.20.1"
default-features = false
