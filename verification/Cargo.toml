[package]
name = "gatekeeper"
version = "0.1.0"
edition = "2021"
publish = false

[dependencies]
base64 = "*"
unic-langid = "*"
teloxide = { version = "*", features = ["macros"] }
tokio = { version = "*", features = ["macros", "rt-multi-thread"] }
reqwest = { version = "*", features = ["json"] }
serde = { version = "*", features = ["derive"] }
takecell = "=0.1.1"
chrono = "*"
dptree = "*"
envconfig = "*"
log = "*"
env_logger = "*"
