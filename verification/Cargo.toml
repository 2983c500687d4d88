[package]
name = "libliquefy"
version = "0.1.0"
edition = "2021"
publish = false

[dependencies]
chrono = { version = "0.4", default-features = false, features = ["std", "serde"] }
rug = { version = "1", default-features = false, features = ["integer", "std"] }
serde = { version = "1", features = ["derive"] }
serde_json = { version = "1", features = ["arbitrary_precision", "preserve_order"] }
thiserror = "1"
uriparse = "0.6"
uuid = { version = "1", features = ["serde"] }
