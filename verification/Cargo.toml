[package]
name = "zellij_load"
version = "0.1.0"
edition = "2021"
publish = false

[dependencies]
colored = "*"
gfxinfo = "*"
glob = "0.3"
regex = "1"
serde = { version = "1", features = ["derive"] }
serde_json = "1"
single-instance = "*"
sysinfo = { version = "*", default-features = false, features = ["system"] }
tokio = { version = "1", default-features = false, features = ["macros", "rt-multi-thread", "sync", "time"] }
