[package]
name = "centraldogma"
version = "0.1.0"
edition = "2021"
publish = false

[dependencies]
form_urlencoded = "1"
fastrand = "2"
serde_json = "1"
serde = { version = "1", features = ["derive"] }
reqwest = { version = "0.11", default-features = false, features = ["json"] }
tokio = { version = "1", features = ["time"] }
futures = "0.3"
async-trait = "0.1"
log = "0.4"
thiserror = "1"
url = "2"
