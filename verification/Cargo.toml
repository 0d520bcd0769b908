[package]
name = "tweet_pipeline"
version = "0.1.0"
edition = "2021"
publish = false

[dependencies]
uuid = { version = "1", features = ["v5"] }
urlencoding = "2"
chrono = { version = "0.4", default-features = false, features = ["clock"] }
jsonwebtoken = "9"
actix-web = { version = "4", default-features = false, features = ["macros"] }
actix-ws = "0.3"
actix-cors = "0.7"
tokio = { version = "1", features = ["macros", "rt-multi-thread", "sync", "time"] }
serde = { version = "1", features = ["derive"] }
serde_json = "1"
reqwest = { version = "0.12", default-features = false, features = ["json"] }
futures-util = { version = "0.3", default-features = false, features = ["std"] }
anyhow = "1"
dotenv = "0.15"
