[package]
name = "llm_local"
version = "0.1.0"
edition = "2021"
publish = false

[dependencies]
actix-web = { version = "4", default-features = false, features = ["macros"] }
diesel = { version = "2", default-features = false, features = ["postgres_backend", "uuid"] }
dotenvy = "0.15"
log = "0.4"
reqwest = { version = "0.12", default-features = false, features = ["json"] }
serde = { version = "1", features = ["derive"] }
serde_json = "1"
tokio = { version = "1", features = ["process", "rt", "time"] }
uuid = { version = "1", features = ["v4"] }
