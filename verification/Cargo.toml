[package]
name = "cargo-frc"
version = "0.1.0"
edition = "2021"
publish = false

[dependencies]
cargo_metadata = "0.18"
cargo-subcommand-metadata = "0.1"
clap = { version = "4", features = ["derive"] }
relative-path = "1"
reqwest = { version = "0.12", default-features = false }
russh = "0.45"
russh-sftp = "2.0"
serde = { version = "1", features = ["derive"] }
serde_json = "1"
thiserror = "1"
tokio = { version = "1", features = ["io-std", "io-util", "rt-multi-thread", "macros"] }
tracing = "0.1"
