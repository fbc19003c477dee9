[package]
name = "mesh_core"
version = "0.1.0"
edition = "2021"
publish = false

[dependencies]
chacha20poly1305 = "0.10"
dirs = "*"
ed25519-dalek = { version = "2", features = ["rand_core"] }
hex = "0.4"
once_cell = "1"
rand = "0.8"
rusqlite = { version = "*", features = ["bundled"] }
serde = { version = "1", features = ["derive"] }
serde_json = "1"
sha2 = "0.10"
snow = "*"
x25519-dalek = { version = "2", features = ["static_secrets"] }
