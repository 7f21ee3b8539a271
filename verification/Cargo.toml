[package]
name = "sys_shred"
version = "1.0.1"
edition = "2021"
publish = false

[dependencies]
rand = "0.8"
chrono = { version = "0.4", features = ["serde"] }
globset = "0.4"
clap = { version = "4", features = ["derive"] }
serde = { version = "1", features = ["derive"] }
serde_json = "1"
walkdir = "2"
rayon = "1"
dialoguer = "0.11"
indicatif = "0.17"
console = "0.15"
ctrlc = "3"
env_logger = "0.11"
lazy_static = "1"
libc = "0.2"
