[package]
name = "nzxt_ctl"
version = "0.1.0"
edition = "2021"
publish = false

[dependencies]
image = { version = "0.25", default-features = false }
imageproc = { version = "0.25", default-features = false }
ab_glyph = "0.2"
nusb = "0.2"
nix = { version = "0.29", features = ["user", "fs"] }
ctrlc = "3"
env_logger = "0.11"
log = "0.4"
anyhow = "1"
serde = { version = "1", features = ["derive"] }
serde_json = "1"
toml = "0.8"
