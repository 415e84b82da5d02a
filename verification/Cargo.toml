[package]
name = "favicon_picker"
version = "0.1.0"
edition = "2021"
publish = false

[dependencies]
scraper = "*"
url = "*"
reqwest = { version = "*", default-features = false, features = ["blocking"] }
bytes = "*"
serde = { version = "*", features = ["derive"] }
thiserror = "*"
