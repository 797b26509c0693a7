[package]
name = "trace"
version = "0.1.0"
edition = "2021"
publish = false

[dependencies]
anyhow = "1"
argh = "0.1"
chrono = "0.4"
directories = "5"
futures = "0.3"
matrix-sdk = "0.7"
rpassword = "7"
ruma = { version = "0.9", features = ["events"] }
serde = { version = "1", features = ["derive"] }
serde_json = "1"
text_io = "0.1"
tokio = { version = "1", features = ["macros", "rt-multi-thread"] }
uuid = { version = "1", features = ["v4"] }
