[package]
name = "wsnav"
version = "0.1.0"
edition = "2021"
publish = false

[dependencies]
uuid = { version = "1", features = ["v4"] }
sha2 = "0.10"
nix = { version = "0.29", features = ["time", "hostname", "signal", "process", "user", "fs"] }
rustix = { version = "*", features = ["process"] }
serde = { version = "1", features = ["derive"] }
serde_json = "1"
clap = { version = "4", features = ["derive"] }
thiserror = "2"
