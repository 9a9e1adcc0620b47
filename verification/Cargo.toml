[package]
name = "tooling"
version = "0.1.0"
edition = "2021"
publish = false

[dependencies]
async-trait = "=0.1.92"
futures = "=0.3.34"
pulldown-cmark = "=0.9.6"
reqwest = { version = "=0.13.5", default-features = false, features = ["form", "json", "multipart"] }
serde = { version = "=1.0.229", features = ["derive"] }
tokio = { version = "=1.53.2", features = ["macros", "rt-multi-thread", "fs"] }
url = "=2.5.8"
uuid = { version = "=1.27.0", features = ["v4"] }
