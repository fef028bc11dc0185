[package]
name = "flemme"
version = "0.1.0"
edition = "2021"
publish = false

[dependencies]
num_cpus = "=1.17.0"
uuid = { version = "=1.29.0", features = ["v4"] }
serde = { version = "=1.0.229", features = ["derive"] }
serde_json = "=1.0.154"
dirs = "=5.0.1"
rubato = "=0.16.2"
ndarray = "=0.16.1"
ort = { version = "=2.0.0-rc.10", default-features = false, features = ["std", "ndarray", "load-dynamic"] }
keyring = { version = "=2.3.3", default-features = false }
reqwest = { version = "=0.12.28", default-features = false, features = ["json", "stream"] }
tokio = { version = "=1.54.1", features = ["rt", "rt-multi-thread"] }
futures-util = "=0.3.34"
whisper-rs = { version = "=0.15.1", default-features = false }
arboard = { version = "=3.7.0", default-features = false }
cpal = "0.15"
