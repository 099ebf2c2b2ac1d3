[package]
name = "init4_bin_base"
version = "0.1.0"
edition = "2021"
publish = false

[dependencies]
chrono = "*"
axum = "*"
tower = "*"
serde = { version = "*", features = ["derive"] }
tracing = "*"
