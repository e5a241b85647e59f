[package]
name = "sqlworkbench"
version = "0.1.0"
edition = "2021"
publish = false

[dependencies]
rusqlite = { version = "*", features = ["bundled"] }
serde = { version = "*", features = ["derive"] }
serde_json = "*"
toml = "*"
regex = "*"
rbatis = "*"
rbdc = "*"
rbdc-sqlite = "*"
rbs = "*"
api-resp = "*"
tokio = { version = "*", features = ["macros", "rt-multi-thread"] }
