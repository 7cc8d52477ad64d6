[package]
name = "lineup"
version = "0.1.0"
edition = "2021"
publish = false

[dependencies]
crossbeam-channel = "*"
image = { version = "*", default-features = false, features = ["jpeg", "png"] }
tokio = { version = "1", features = ["macros", "rt-multi-thread"] }
hyper = { version = "0.14", features = ["client", "http1", "tcp"] }
hyper-tls = "0.5"
piston_window = "*"
piston2d-graphics = "*"
