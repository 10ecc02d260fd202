[package]
name = "chunk_validation"
version = "0.1.0"
edition = "2021"
publish = false

[dependencies]
borsh = { version = "=1.8.1", features = ["derive"] }
sha2 = "=0.10.9"
rayon = "=1.12.0"
