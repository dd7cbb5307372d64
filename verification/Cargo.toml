[package]
name = "gpui_embed"
version = "0.1.0"
edition = "2021"
publish = false

[dependencies]
anyhow = "1"
palette = "0.7"
serde = { version = "1", features = ["derive"] }
schemars = "1"
proptest = "1"
uuid = "1"
