[package]
name = "ripress"
version = "0.1.0"
edition = "2021"
publish = false

[dependencies]
serde = { version = "1", features = ["derive"] }
serde_json = "1"
actix-web = { version = "4", default-features = false, features = ["cookies"] }
futures-util = { version = "0.3", default-features = false, features = ["std"] }
