[package]
name = "prdt_media"
version = "0.1.0"
edition = "2021"
publish = false

[dependencies]
anyhow = "=1.0.104"
ashpd = { version = "=0.13.13", features = ["screencast"] }
async-trait = "=0.1.92"
bytes = "=1.12.1"
dirs = "=7.0.0"
libc = "=0.2.191"
openh264 = "=0.9.9"
pipewire = "=0.10.1"
rusty_ffmpeg = "=0.17.0"
serde = { version = "=1.0.229", features = ["derive"] }
thiserror = "=2.0.21"
tokio = { version = "=1.54.1", features = ["macros", "rt", "rt-multi-thread", "sync", "time"] }
toml = "=1.1.8"
tracing = "=0.1.44"
x11rb = { version = "=0.14.0", features = ["shm"] }
zbus = "=6.2.1"
