[package]
name = "pickles_verifier"
version = "0.1.0"
edition = "2021"
publish = false

[dependencies]
ark-ff = "=0.5.0"
ark-ec = "=0.5.0"
ark-serialize = "=0.5.0"
ark-pallas = "=0.5.0"
ark-vesta = "=0.5.0"
blake2 = "=0.10.6"
sha2 = "=0.10.9"
ark-poly = "=0.5.0"
parity-scale-codec = { version = "=3.7.5", default-features = false, features = ["std"] }
serde = { version = "=1.0.229", features = ["derive"] }
bincode = { version = "=2.0.1", features = ["serde"] }
hex = "=0.4.3"
base64 = "=0.22.1"
anyhow = "=1.0.104"
serde_json = "=1.0.154"
rsexp = "=0.2.3"
