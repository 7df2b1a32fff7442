[package]
name = "my_voice_chat"
version = "0.1.0"
edition = "2021"
publish = false

[dependencies]
anyhow = "*"
audiopus = "*"
cpal = "*"
iroh = "*"
ringbuf = "*"
tokio = { version = "*", features = ["full"] }
