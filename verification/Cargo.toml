[package]
name = "voice_transcriber"
version = "0.1.0"
edition = "2021"
publish = false

[dependencies]
anyhow = "1"
bytemuck = "1"
gstreamer = "0.22"
gstreamer-app = "0.22"
gstreamer-audio = "0.22"
hound = "3.5"
keyring = "2"
log = "0.4"
relm4 = "0.8"
reqwest = { version = "0.11", features = ["multipart"] }
serde = { version = "1", features = ["derive"] }
serde_json = "1"
tokio = { version = "1", features = ["macros", "rt-multi-thread", "sync", "time"] }
