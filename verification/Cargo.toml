[package]
name = "openvmm"
version = "0.1.0"
edition = "2021"
publish = false

[dependencies]
rand = "=0.8.8"
serde = { version = "=1.0.229", features = ["derive"] }
serde_yaml = "=0.9.34"
bincode = "=1.3.3"
clap = "=2.34.0"
tempfile = "=3.27.0"
tokio = { version = "=1.54.1", features = ["macros", "rt-multi-thread"] }
x11-clipboard = "=0.9.3"
xdotool = "=0.0.2"

[dev-dependencies]
regex = "1"
