[package]
name = "titanium"
version = "0.1.0"
edition = "2021"
publish = false

[dependencies]
aes-gcm = "0.10"
chacha20poly1305 = "0.10"
xsalsa20poly1305 = "0.9"
rand = "0.9"
serde = { version = "1", features = ["derive"] }
serde_json = "1"
serde_repr = "0.1"
thiserror = "2"
tokio = { version = "1", features = ["net", "time", "sync", "rt", "macros"] }
tokio-tungstenite = "0.26"
futures-util = "0.3"
tracing = "0.1"
url = "2"
flume = "0.11"
parking_lot = "0.12"
