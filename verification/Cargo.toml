[package]
name = "cargo-arceos"
version = "0.1.0"
edition = "2021"
publish = false

[dependencies]
anyhow = "1"
axconfig-gen = "*"
cargo_metadata = "*"
cargo-options = "*"
clap = { version = "4", features = ["derive", "env"] }
console = "*"
heck = "*"
log = "0.4"
strum = { version = "*", features = ["derive"] }
