[package]
name = "foodcell"
version = "0.1.0"
edition = "2021"
publish = false

[dependencies]
tokio = { version = "1", features = ["full"] }
ethercrab = { version = "0.5" }
phidget = { version = "*" }
signal-hook = { version = "0.3" }
serde = { version = "1", features = ["derive"] }
log = { version = "0.4" }
