[package]
name = "htget"
version = "0.1.0"
edition = "2021"
publish = false

[dependencies]
url = "*"
regex = "*"
scraper = "*"
reqwest = { version = "*", default-features = false, features = ["stream"] }
tokio = { version = "*", default-features = false, features = ["rt"] }
futures-util = "*"
indicatif = "*"
clap = { version = "*", features = ["derive", "env"] }
bat = { version = "*", default-features = false, features = ["regex-fancy"] }
