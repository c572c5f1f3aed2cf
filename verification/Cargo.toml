[package]
name = "kura"
version = "0.1.0"
edition = "2021"
publish = false

[dependencies]
sha2 = "=0.10.9"
hex = "=0.4.3"
jiff = "=0.2.39"
ratatui = "=0.29.0"
crossterm = { version = "=0.28.1", features = ["event-stream"] }
ratatui-image = { version = "=8.1.1", features = ["tokio"] }
image = { version = "=0.25.10", default-features = false, features = ["jpeg", "png", "gif", "webp"] }
tokio = { version = "=1.54.1", features = ["full"] }
tokio-util = "=0.7.20"
futures = "=0.3.34"
clap = { version = "=4.6.7", features = ["derive"] }
thiserror = "=2.0.21"
miette = "=7.6.0"
directories = "=6.0.0"
sqlx = { version = "=0.8.6", default-features = false, features = ["runtime-tokio", "sqlite"] }
reqwest = { version = "=0.12.28", default-features = false, features = ["rustls-tls"] }
