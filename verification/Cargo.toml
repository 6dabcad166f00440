[package]
name = "consensus"
version = "0.1.0"
edition = "2021"
publish = false

[dependencies]
futures = "=0.3.34"
rayon = "1"
serde = { version = "1", features = ["derive"] }
serde_json = "1"
tower = { version = "=0.4.13", features = ["util"] }
tracing = "0.1"
