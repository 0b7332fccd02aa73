[package]
name = "review_auth"
version = "0.1.0"
edition = "2021"
publish = false

[dependencies]
oauth2 = { version = "4", default-features = false, features = ["reqwest", "rustls-tls"] }
axum = "0.6"
axum-sessions = "0.5"
tokio = { version = "1", features = ["macros", "rt-multi-thread"] }
reqwest = { version = "0.11", default-features = false, features = ["rustls-tls", "json"] }
serde = { version = "1", features = ["derive"] }
dotenvy = "0.15"
