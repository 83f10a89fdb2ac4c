[package]
name = "dive_rs"
version = "0.1.0"
edition = "2021"
publish = false

[dependencies]
url = "=2.5.8"
serde_json = "=1.0.151"
reqwest = { version = "=0.13.5", features = ["blocking"] }
flate2 = "=1.1.10"
tar = "=0.4.46"
tui = { version = "=0.19.0", default-features = false, features = ["termion"] }
termion = "1.5"

[dev-dependencies]
httpmock = "=0.8.3"
