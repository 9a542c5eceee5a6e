[package]
name = "bolt"
version = "0.1.0"
edition = "2021"
publish = false

[dependencies]
rust-crypto = "0.2"
mongodb = { version = "*", features = ["sync"] }
bson = "*"
docopt = "*"
dotenv = "*"
libc = "*"
serde = { version = "1", features = ["derive"] }
