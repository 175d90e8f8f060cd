[package]
name = "cargo_agdk"
version = "0.2.0"
edition = "2021"
publish = false

[dependencies]
clap = { version = "4", features = ["derive"] }
dirs = "5"
include_dir = "0.7"
serde = { version = "1", features = ["derive"] }
sha2 = "0.10"
tar = "0.4"
thiserror = "1"
toml = "0.8"
ureq = "2"
zip = { version = "2", default-features = false, features = ["deflate"] }
zstd = "0.13"
