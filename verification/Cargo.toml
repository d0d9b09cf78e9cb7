[package]
name = "swoq_client"
version = "0.1.0"
edition = "2021"
publish = false

[dependencies]
dotenv = "0.15"
prost = "0.13"
tokio = { version = "1", features = ["macros", "rt-multi-thread"] }
tonic = "0.12"
