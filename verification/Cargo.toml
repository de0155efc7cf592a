[package]
name = "voicehandler"
version = "0.1.0"
edition = "2021"
publish = false

[dependencies]
anywho = "*"
axum = { version = "*", features = ["ws"] }
axum-server = "*"
base64 = "*"
chrono = "*"
clap = { version = "*", features = ["derive", "env"] }
dotenv = "*"
elevenlabs_stt = "*"
futures = "*"
hound = "*"
openai-api-rs = "*"
serde = { version = "*", features = ["derive"] }
serde_json = "*"
tokio = { version = "*", features = ["full"] }
tokio-util = "*"
tower-http = { version = "*", features = ["trace"] }
tracing = "*"
tracing-subscriber = { version = "*", features = ["env-filter", "json"] }
uuid = { version = "*", features = ["v7"] }
