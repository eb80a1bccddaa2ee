[package]
name = "memwatch"
version = "0.1.0"
edition = "2021"
publish = false

[dependencies]
sysinfo = "0.32"
nix = { version = "0.29", features = ["signal", "time"] }
serde = { version = "1", features = ["derive"] }
serde_json = "1"
directories = "5"
