[package]
name = "portable_runner"
version = "0.1.0"
edition = "2021"
publish = false

[dependencies]
random-string = "*"
test_path = "*"
lnk = "0.5"
mount_dir = "*"
serde = { version = "1", features = ["derive"] }
serde_json = "1"
