[package]
name = "oxidoor"
version = "0.1.0"
edition = "2021"
publish = false

[dependencies]
heapless = "=0.8.0"
embassy-time = { version = "=0.4.0", features = ["std"] }
embassy-executor = { version = "=0.7.0", features = ["arch-std", "executor-thread"] }
config = { version = "=0.14.1", default-features = false, features = ["toml"] }
serde = { version = "=1.0.229", features = ["derive"] }
clap = { version = "=4.6.7", features = ["derive", "env"] }
once_cell = "=1.21.4"
tokio = { version = "=1.54.1", features = ["sync"] }
tracing = "=0.1.44"
sea-orm = { version = "=1.1.20", default-features = false }
esp-idf-svc = "=0.51.0"
