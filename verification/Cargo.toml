[package]
name = "lolburst"
version = "0.1.0"
edition = "2021"
publish = false

[dependencies]
serde = { version = "1", features = ["derive"] }
serde_json = "1"
toml = "*"
directories = "*"
chrono = "*"
log = "*"
crossbeam = "*"
crossterm = "0.25"
tui = "0.19"
tui-logger = "0.8"
tokio = { version = "1", features = ["rt-multi-thread", "macros", "time"] }
reqwest = { version = "0.11", default-features = false, features = ["rustls-tls"] }
