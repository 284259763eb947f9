[package]
name = "kodegen_github"
version = "0.1.0"
edition = "2021"
publish = false

[dependencies]
regex = "1"
semver = "1"
chrono = { version = "0.4", features = ["serde"] }
lru = "*"
urlencoding = "2"
octocrab = "0.47"
tokio = { version = "1", features = ["full"] }
tokio-stream = "0.1"
futures = "0.3"
reqwest = { version = "0.12", features = ["json"] }
walkdir = "2"
tempfile = "3"
gix = { version = "*", features = ["blocking-network-client", "worktree-mutation"] }
toml = "*"
serde = { version = "1", features = ["derive"] }
serde_json = "1"
log = "0.4"
bytes = "1"
anyhow = "1"
thiserror = "2"
