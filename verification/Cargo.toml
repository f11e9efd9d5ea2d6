[package]
name = "send_to_kindle"
version = "0.1.0"
edition = "2021"
publish = false

[dependencies]
clap = { version = "*", features = ["derive"] }
thirtyfour = "*"
tokio = { version = "*", features = ["macros", "rt-multi-thread"] }
