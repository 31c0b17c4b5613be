[package]
name = "neo4j_nif"
version = "0.1.0"
edition = "2021"
publish = false

[dependencies]
neo4rs = "=0.8.0"
rustler = "=0.34.0"
tokio = { version = "=1.54.1", features = ["rt-multi-thread"] }

[dev-dependencies]
chrono = { version = "=0.4.45", default-features = false, features = ["std"] }
