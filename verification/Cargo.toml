[package]
name = "loudstalker"
version = "0.1.0"
edition = "2021"
publish = false

[dependencies]
clap = { version = "*", features = ["derive"] }
env_logger = "*"
log = "*"
reqwest = { version = "*", default-features = false, features = ["blocking"] }
windows = { version = "*", features = ["Win32_Media_Audio_Endpoints", "Win32_System_Com", "Win32_Foundation", "implement"] }
windows-core = "*"
