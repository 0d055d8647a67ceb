[package]
name = "version_control_clean_check"
version = "0.1.0"
edition = "2021"
publish = false

[dependencies]
cargo-util = "=0.2.14"
clap = { version = "=4.6.7", features = ["derive"] }
git2 = { version = "=0.21.0", default-features = false }

[dev-dependencies]
tempfile = "=3.27.0"
