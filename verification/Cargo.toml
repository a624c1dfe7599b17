[package]
name = "game_relay"
version = "0.1.0"
edition = "2021"
publish = false

[dependencies]
anyhow = "1"
log = "0.4"
owmods_core = "*"
tokio = { version = "1", features = ["macros", "rt", "sync"] }
