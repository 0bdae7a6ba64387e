[package]
name = "newegg"
version = "0.1.0"
edition = "2021"
publish = false

[dependencies]
async-trait = "*"
bigdecimal = { version = "*", features = ["serde"] }
chrono = "*"
chrono-tz = "*"
clap = "*"
csv = "*"
dotenv = "*"
ftp = "*"
futures = "*"
reqwest = { version = "*", default-features = false, features = ["json"] }
serde = { version = "*", features = ["derive"] }
serde_derive = "*"
serde_json = "*"
thiserror = "*"
tokio = { version = "*", features = ["rt-multi-thread"] }
url = "*"
