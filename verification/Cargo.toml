[package]
name = "replica_steps"
version = "0.1.0"
edition = "2021"
publish = false

[dependencies]
anyhow = "1"
clap = { version = "4", features = ["derive"] }
slog = "2"
tokio = { version = "1", features = ["macros", "rt-multi-thread"] }
