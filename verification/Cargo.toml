[package]
name = "carbonbond"
version = "0.1.0"
edition = "2021"
publish = false

[dependencies]
rust-argon2 = "0.8"
urlencoding = "2"
sqlx = { version = "0.7", default-features = false, features = ["postgres", "runtime-tokio", "chrono"] }
reqwest = { version = "0.11", default-features = false, features = ["json"] }
hyper = { version = "0.14", features = ["server", "http1", "tcp"] }
hyper-staticfile = "0.9"
tokio = { version = "1", features = ["macros", "rt-multi-thread"] }
chrono = { version = "0.4", default-features = false, features = ["clock", "serde"] }
serde = { version = "1", features = ["derive"] }
serde_json = "1"
log = "0.4"
env_logger = { version = "0.10", default-features = false }
clap = { version = "4", default-features = false, features = ["std"] }
diesel = { version = "1.4", default-features = false, features = ["postgres"] }
