[package]
name = "chiplay"
version = "0.1.0"
edition = "2021"
publish = false

[dependencies]
rand = "0.8"
clap = { version = "4", features = ["derive"] }
crossterm = "0.28"
ratatui = "0.29"
lofty = "0.22"
rodio = { version = "0.20", default-features = false, features = ["symphonia-all"] }
rustfft = "6"
reqwest = { version = "0.12", default-features = false, features = ["blocking", "rustls-tls"] }
