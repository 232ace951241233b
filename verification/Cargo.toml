[package]
name = "newsapi"
version = "0.1.0"
edition = "2021"
publish = false

[dependencies]
ureq = "2"
url = "2"
serde_json = "1"
serde = { version = "1", features = ["derive"] }
reqwest = { version = "0.11", default-features = false }
tokio = { version = "1", features = ["macros", "rt-multi-thread"] }
clap = { version = "4", features = ["derive"] }
dotenv = "0.15"
termimad = "*"
webbrowser = "*"
