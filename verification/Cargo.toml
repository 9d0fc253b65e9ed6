[package]
name = "balance_consultor"
version = "0.1.0"
edition = "2021"
publish = false

[dependencies]
ethers = { version = "*", default-features = false }
url = "*"
tokio = { version = "*", features = ["macros", "rt-multi-thread"] }
dotenv = "*"
eyre = "*"
