[package]
name = "chksum_cli"
version = "0.1.0"
edition = "2021"
publish = false

[dependencies]
chksum = "*"
clap = { version = "*", features = ["derive"] }
colored = "*"

[dev-dependencies]
anyhow = "*"
assert_fs = "*"
