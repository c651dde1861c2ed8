[package]
name = "statusline"
version = "0.1.0"
edition = "2021"
publish = false

[dependencies]
chrono = "0.4"
swayipc = "*"
tokio = { version = "1", features = ["fs", "io-util", "macros", "rt-multi-thread", "time"] }

[dev-dependencies]
scan_fmt = "0.2"
