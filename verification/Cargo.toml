[package]
name = "ctapi_rs"
version = "0.1.0"
edition = "2021"
publish = false

[dependencies]
encoding_rs = "*"
anyhow = "*"
thiserror = "*"
tokio = { version = "*", features = ["rt", "rt-multi-thread", "time"] }
windows-sys = { version = "*", features = ["Win32_Foundation", "Win32_System_IO"] }
