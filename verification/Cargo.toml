[package]
name = "command_governor"
version = "0.1.0"
edition = "2021"
publish = false

[dependencies]
getrandom = "0.3"
rusqlite = { version = "*", features = ["bundled"] }
sha2 = "0.10"
signal-hook = "0.3"
thiserror = "2"
uuid = { version = "1", features = ["v7"] }
