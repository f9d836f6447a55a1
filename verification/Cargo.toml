[package]
name = "release_tagger"
version = "0.1.0"
edition = "2021"
publish = false

[dependencies]
semver = "=1.0.28"
clap = { version = "=4.6.7", features = ["derive"] }
git2 = { version = "=0.20.4", default-features = false }
inquire = "=0.9.4"
octocrab = "=0.47.1"
tokio = { version = "=1.54.1", features = ["rt"] }

[dev-dependencies]
regex = "=1.13.1"
