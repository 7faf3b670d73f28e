[package]
name = "tester"
version = "0.1.0"
edition = "2021"
publish = false

[dependencies]
ads1x1x = "0.2"
bno080 = "0.1"
chrono = { version = "0.4", features = ["serde"] }
colored = "2"
crossterm = "0.27"
embedded-hal = "0.2"
gethostname = "0.4"
nb = "1"
regex = "1"
reqwest = { version = "0.11", default-features = false, features = ["blocking", "json", "rustls-tls"] }
rppal = { version = "0.14", features = ["hal"] }
rusb = "0.9"
serde = { version = "1", features = ["derive"] }
serde_json = "1"
serialport = { version = "4", default-features = false }
uuid = { version = "1", features = ["v4"] }
