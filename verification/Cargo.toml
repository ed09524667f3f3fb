[package]
name = "voyager_explorer"
version = "0.1.0"
edition = "2021"
publish = false

[dependencies]
anyhow = "*"
clap = { version = "*", features = ["derive"] }
glob = "*"
hdrhistogram = "*"
hound = "*"
image = { version = "*", default-features = false, features = ["png"] }
num-complex = "*"
realfft = "*"
serde = { version = "*", features = ["derive"] }
serde_json = "*"
thiserror = "*"
toml = "*"
