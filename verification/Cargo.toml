[package]
name = "rrr"
version = "0.1.0"
edition = "2021"
publish = false

[dependencies]
swf = "*"
clap = { version = "*", features = ["derive"] }
serde = { version = "*", features = ["derive"] }
ureq = "*"
log = "*"

[dev-dependencies]
flate2 = "*"
