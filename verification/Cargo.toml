[package]
name = "zonebuilder"
version = "0.1.0"
edition = "2021"
publish = false

[dependencies]
geo = "0.17"
geographiclib-rs = "0.2"
geojson = { version = "0.22", features = ["geo-types"] }
serde_json = "1"
structopt = "0.3"
wasm-bindgen = "0.2"
