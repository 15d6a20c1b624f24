[package]
name = "creator_feed"
version = "0.1.0"
edition = "2021"
publish = false

[dependencies]
chrono = { version = "0.4", default-features = false, features = ["std"] }
rss = { version = "2", default-features = false }
actix-web = { version = "4", default-features = false, features = ["macros"] }
actix-files = "0.6"
askama = "0.12"
graphql_client = { version = "0.14", default-features = false }
pretty_env_logger = "0.5"
reqwest = { version = "0.11", default-features = false, features = ["json", "rustls-tls"] }
serde = { version = "1", features = ["derive"] }
