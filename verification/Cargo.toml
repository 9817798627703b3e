[package]
name = "probation"
version = "0.1.0"
edition = "2021"
publish = false

[dependencies]
actix-web = { version = "4", default-features = false, features = ["macros"] }
serenity = { version = "0.12", default-features = false, features = ["client", "gateway", "model", "http", "rustls_backend"] }
tokio = { version = "1", features = ["macros", "rt-multi-thread", "sync", "time"] }
