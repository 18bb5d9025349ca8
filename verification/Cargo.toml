[package]
name = "repo_view"
version = "0.1.0"
edition = "2021"
publish = false

[dependencies]
git2 = "*"
ssh2-config = "*"
serde = { version = "*", features = ["derive"] }
clap = { version = "*", features = ["derive"] }
clap-verbosity-flag = "*"
log = "*"
anyhow = "*"
