[package]
name = "voice_assistant"
version = "0.1.0"
edition = "2021"
publish = false

[dependencies]
anyhow = "1"
chrono = "0.4"
cpal = "*"
dotenv = "*"
elevenlabs = "*"
rodio = "*"
tokio = { version = "1", features = ["macros", "rt-multi-thread", "time"] }
whisper-rs = "*"
