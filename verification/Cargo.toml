[package]
name = "notes_api"
version = "0.1.0"
edition = "2021"
publish = false

[dependencies]
aes-gcm = "0.10"
p256 = { version = "0.13", features = ["ecdh"] }
sha2 = "0.10"
base64 = "0.22"
uuid = { version = "1", features = ["v4"] }
chrono = "0.4"
jsonwebtoken = "9"
serde = { version = "1", features = ["derive"] }
serde_json = { version = "1", features = ["preserve_order"] }
tokio = { version = "1", features = ["rt-multi-thread", "macros", "time", "sync"] }
actix-web = { version = "4", default-features = false, features = ["macros"] }
actix-cors = "0.7"
actix-files = "0.6"
actix-multipart = "0.7"
actix-web-httpauth = "0.8"
sea-orm = { version = "1", default-features = false, features = ["sqlx-sqlite", "runtime-tokio-rustls", "macros"] }
dotenv = "0.15"
envy = "0.4"
futures = "0.3"
futures-util = "0.3"
bytes = "1"
