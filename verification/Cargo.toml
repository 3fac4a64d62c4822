[package]
name = "ssrapid_desktop_service"
version = "0.1.0"
edition = "2021"
publish = false

[dependencies]
anyhow = "1"
nix = { version = "0.29", features = ["signal", "process", "time"] }
once_cell = "1"
serde = { version = "1", features = ["derive"] }
serde_json = "1"
tokio = { version = "1", features = ["rt-multi-thread", "process", "time", "net", "sync", "macros"] }
warp = "0.3"
