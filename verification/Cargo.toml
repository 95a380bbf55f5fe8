[package]
name = "registry_core"
version = "0.1.0"
edition = "2021"
publish = false

[dependencies]
anyhow = "=1.0.104"
axum = "=0.7.9"
axum-extra = { version = "=0.9.6", features = ["erased-json"] }
diesel = { version = "=2.2.12", default-features = false, features = ["postgres_backend"] }
diesel-async = { version = "=0.5.2", features = ["postgres", "async-connection-wrapper"] }
dotenvy = "=0.15.7"
# Named only for its feature: the postgres connection of diesel-async calls
# `futures_util::try_join!`, which exists only with `async-await-macro`.
futures-util = { version = "=0.3.34", features = ["async-await-macro"] }
http = "=1.5.0"
lettre = { version = "=0.11.23", default-features = false, features = ["builder", "file-transport", "hostname", "native-tls", "smtp-transport"] }
rand = "=0.8.8"
serde = { version = "=1.0.229", features = ["derive"] }
thiserror = "=1.0.69"
tokio = { version = "=1.54.1", features = ["rt"] }
