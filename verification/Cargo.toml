[package]
name = "jin"
version = "0.1.0"
edition = "2021"
publish = false

[dependencies]
anyhow = "*"
chrono = "*"
clap = { version = "*", features = ["derive"] }
clap_complete = "*"
dirs = "*"
git2 = { version = "*", default-features = false }
indexmap = { version = "*", features = ["serde"] }
libc = "*"
regex = "*"
serde = { version = "*", features = ["derive"] }
serde_json = "*"
serde_yaml = "*"
serde_yaml_ng = "*"
thiserror = "*"
toml = "*"
