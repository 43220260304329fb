[package]
name = "stretch_please"
version = "0.1.0"
edition = "2021"
publish = false

[dependencies]
dotenv = "0.15"
image = "0.25"
poise = "0.6"
rand = "0.8"
tokio = { version = "1", features = ["macros", "rt-multi-thread"] }
