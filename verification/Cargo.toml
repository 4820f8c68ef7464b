[package]
name = "send_smtp_mail"
version = "0.1.0"
edition = "2021"
publish = false

[dependencies]
base64 = "*"
chrono = "*"
dotenv = "*"
rustls = "*"
tokio = { version = "*", features = ["rt-multi-thread", "macros", "net", "io-util", "time"] }
tokio-rustls = "*"
webpki-roots = "*"
