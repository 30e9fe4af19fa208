[package]
name = "meeting_rooms"
version = "0.1.0"
edition = "2021"
publish = false

[dependencies]
actix-cors = "0.7"
actix-web = { version = "4", features = ["openssl"] }
actix-web-httpauth = "0.8"
async-trait = "0.1"
dotenv = "0.15"
env_logger = { version = "0.11", default-features = false }
futures-util = "0.3"
jsonwebtoken = "9"
livekit-api = "*"
livekit-protocol = "*"
log = "0.4"
openssl = "0.10"
password-auth = "1"
rand = "0.9"
reqwest = { version = "0.12", default-features = false, features = ["json", "native-tls"] }
sea-orm = { version = "1.1", default-features = false, features = ["sqlx-mysql", "runtime-tokio-rustls", "macros", "with-chrono"] }
sea-orm-migration = { version = "1.1", default-features = false }
serde = { version = "1", features = ["derive"] }
serde_json = "1"
ts-rs = "10"
