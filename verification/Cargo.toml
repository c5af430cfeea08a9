[package]
name = "dmon_worker"
version = "0.1.0"
edition = "2021"
publish = false

[dependencies]
aes = "0.8"
base64 = "0.22"
cbc = { version = "0.1", features = ["alloc", "std"] }
chrono = "0.4"
clap = { version = "4", features = ["derive"] }
cron = "0.12"
ctrlc = "3"
hex = "0.4"
rand = "0.8"
run_script = "0.10"
serde_json = { version = "1", features = ["preserve_order"] }
sha2 = "0.10"
ureq = { version = "2", default-features = false }
yaml-rust = "0.4"
