[package]
name = "trinity_server"
version = "0.1.0"
edition = "2021"
publish = false

[dependencies]
dashmap = "*"
flacenc = "*"
webrtc = "*"
bcrypt = "*"
jsonwebtoken = "9"
chrono = "0.4"
serde = { version = "1", features = ["derive"] }
serde_json = "1"
tokio = { version = "1", features = ["full"] }
async-stream = "0.3"
futures-util = "0.3"
actix-web = { version = "4", default-features = false, features = ["macros", "cookies"] }
axum = { version = "0.8", features = ["ws"] }
tower-http = { version = "0.6", features = ["trace"] }
sqlx = { version = "0.8", default-features = false, features = ["postgres", "runtime-tokio", "derive"] }
dotenv = "0.15"
log = "0.4"
pretty_env_logger = "0.5"
