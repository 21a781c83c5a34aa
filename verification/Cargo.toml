[package]
name = "npcterm"
version = "1.3.3"
edition = "2021"
publish = false

[dependencies]
chrono = "=0.4.45"
portable-pty = "=0.9.0"
schemars = "=1.2.3"
serde = { version = "=1.0.229", features = ["derive"] }
serde_json = { version = "=1.0.154", features = ["preserve_order"] }
tokio = { version = "=1.54.1", features = ["macros", "rt", "sync", "time"] }
turbomcp = "=3.6.0"
turbomcp-server = "=3.6.0"
vte = "=0.15.0"
