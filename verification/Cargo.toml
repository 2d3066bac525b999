[package]
name = "imgtest"
version = "0.1.0"
edition = "2021"
publish = false

[dependencies]
url = "2"
comrak = { version = "*", default-features = false }
base64 = "0.13"
rocket = { version = "0.5", features = ["json"] }
multipart = { version = "0.18", default-features = false, features = ["server"] }
rayon = "1"
rand = "0.8"
raster = "0.2"
reqwest = { version = "0.11", default-features = false, features = ["blocking", "multipart"] }
tempfile = "3"
graceful = "0.1"
serde = { version = "1", features = ["derive"] }
