[package]
name = "emu_studio"
version = "0.1.0"
edition = "2021"
publish = false

[dependencies]
roxmltree = "=0.20.0"
sha1 = "=0.10.7"
sha2 = "0.10"
url = "=2.5.8"
time = { version = "=0.3.55", features = ["formatting", "parsing"] }
serde = { version = "=1.0.229", features = ["derive"] }
serde_json = "=1.0.154"
clap = { version = "=4.6.7", features = ["derive"] }
sysinfo = "=0.33.1"
zip = { version = "=2.6.1", default-features = false, features = ["deflate"] }
reqwest = { version = "0.12", default-features = false, features = ["blocking", "rustls-tls"] }
