[package]
name = "fbink_rs"
version = "0.1.0"
edition = "2021"
publish = false

[dependencies]
flagset = "0.4"
image = { version = "0.24", default-features = false, features = ["bmp", "png"] }
libc = "0.2"
num_enum = "0.7"
proc-mounts = "0.3"
serde = { version = "1", features = ["derive"] }
strum = { version = "0.26", features = ["derive"] }
thiserror = "1"
