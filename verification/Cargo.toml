[package]
name = "kmdata"
version = "0.1.0"
edition = "2021"
publish = false

[dependencies]
directories = "6.0.0"
minreq = { version = "=2.14.1", features = ["json-using-serde"] }
rmp-serde = "1.3.1"
rmpv = { version = "*", features = ["with-serde"] }
serde = { version = "1.0", features = ["derive"] }
serde_json = "1.0"
