[package]
name = "paper_api"
version = "0.1.0"
edition = "2021"
publish = false

[dependencies]
anyhow = "1"
bytemuck = "1"
chrono = "0.4"
futures = "0.3"
itertools = "0.10"
ndarray = "0.15"
prost = "0.11"
qdrant-client = "1.3"
reqwest = "0.11"
serde = { version = "1", features = ["derive"] }
tokenizers = { version = "0.13", default-features = false, features = ["onig"] }
tokio = { version = "1", features = ["macros", "rt-multi-thread"] }
tonic = "0.9"
triton-client = "*"
