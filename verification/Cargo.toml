[package]
name = "todo_sync"
version = "0.1.0"
edition = "2021"
publish = false

[dependencies]
dirs = "*"
log = "0.4"
serde = { version = "1", features = ["derive"] }
ssh2 = "0.9"
