[package]
name = "rai-pal"
version = "0.1.0"
edition = "2021"
publish = false

[dependencies]
futures = "0.3"
game-scanner = "*"
log = "0.4"
open = "5"
serde = { version = "1", features = ["derive"] }
serde_json = "1"
steamlocate = "*"
tokio = { version = "1", features = ["rt-multi-thread", "sync", "time"] }
winreg = "*"
