[package]
name = "shadow_terminal"
version = "0.1.0"
edition = "2021"
publish = false

[dependencies]
vt100 = "*"
portable-pty = "*"
tokio = { version = "*", features = ["rt-multi-thread", "sync", "macros", "time"] }
serde = { version = "*", features = ["derive"] }
serde_json = "*"
schemars = "*"
clap = { version = "*", features = ["derive", "env"] }
