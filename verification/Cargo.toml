[package]
name = "api_free_reseau_fr"
version = "0.1.0"
edition = "2021"
publish = false

[dependencies]
derive_more = { version = "2", features = ["deref", "deref_mut", "display", "error", "from"] }
reqwest = "0.12"
serde = { version = "1", features = ["derive"] }
