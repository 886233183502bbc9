[package]
name = "kazeta_core"
version = "0.1.0"
edition = "2021"
publish = false

[dependencies]
anyhow = "=1.0.104"
chrono = "=0.4.45"
ctrlc = "=3.5.2"
dirs = "=5.0.1"
env_logger = "=0.11.11"
evdev = "=0.12.2"
gilrs = "=0.10.10"
inotify = "=0.10.2"
log = "=0.4.34"
macroquad = "=0.4.16"
md-5 = "=0.10.6"
serde = { version = "=1.0.229", features = ["derive"] }
serde_json = "=1.0.154"
sysinfo = "=0.32.1"
tar = "0.4"
toml = "=0.8.23"
walkdir = "2"
