[package]
name = "libsug"
version = "1.0.0"
edition = "2021"
publish = false

[dependencies]
serde_json = "=1.0.154"
clap = "=4.6.7"
dotenv = "=0.15.0"
reqwest = { version = "=0.12.28", default-features = false, features = ["rustls-tls"] }
tokio = { version = "=1.54.1", features = ["macros", "rt-multi-thread"] }

[dev-dependencies]
regex = "=1.13.1"
