[package]
name = "artisan_cli"
version = "1.0.0"
edition = "2021"
publish = false

[dependencies]
artisan_middleware = { version = "=5.8.0", default-features = false }
base64 = "=0.13.1"
dotenv = "=0.15.0"
owo-colors = "=4.4.0"
regex = "=1.13.1"
reqwest = { version = "=0.12.28", features = ["json"] }
serde_json = "=1.0.154"
tokio = { version = "=1.54.1", features = ["macros", "rt-multi-thread", "time"] }
