[package]
name = "person_service"
version = "0.1.0"
edition = "2021"
publish = false

[dependencies]
actix-web = { version = "=4.18.1", default-features = false, features = ["macros"] }
serde_json = { version = "=1.0.154", features = ["preserve_order"] }

[dev-dependencies]
serde = "=1.0.229"
