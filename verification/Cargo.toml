[package]
name = "rmusic"
version = "0.1.0"
edition = "2021"
publish = false

[dependencies]
rand = "=0.9.5"
crossterm = "=0.28.1"
ratatui = "=0.29.0"
rodio = { version = "=0.19.0", default-features = false }
thirtyfour = { version = "=0.35.0", default-features = false }
tokio = { version = "=1.53.2", features = ["macros", "rt-multi-thread", "process", "io-util"] }
directories = "=6.0.0"
