[package]
name = "aivoice_vox"
version = "0.1.0"
edition = "2021"
publish = false

[dependencies]
axum = "*"
base64 = "*"
chrono = "*"
clap = { version = "*", features = ["derive"] }
encoding_rs = "*"
fxhash = "*"
indexmap = "*"
once_cell = "*"
process_path = "*"
serde = { version = "*", features = ["derive"] }
serde_json = "*"
tempfile = "*"
tokio = { version = "*", features = ["full"] }
tower-http = { version = "*", features = ["cors", "trace"] }
tracing = "*"
tracing-subscriber = "*"
uuid = { version = "*", features = ["v4", "v5"] }
wav_io = "*"
