[package]
name = "blcvoice"
version = "0.1.0"
edition = "2021"
publish = false

[dependencies]
serde = { version = "=1.0.229", features = ["derive"] }
serde_json = "=1.0.154"
sysinfo = "=0.40.1"
rusqlite = { version = "=0.41.1", features = ["bundled"] }
rubato = "=5.0.1"
audioadapter-buffers = "=5.2.0"
x11rb = { version = "=0.14.0", features = ["xtest"] }
cpal = "=0.18.2"
reqwest = { version = "=0.12.28", default-features = false, features = ["blocking", "rustls-tls"] }
transcribe-cpp = "*"
