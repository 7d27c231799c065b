[package]
name = "udisks2"
version = "0.1.0"
edition = "2021"
publish = false

[dependencies]
enumflags2 = { version = "0.7", features = ["serde"] }
gettext-rs = { version = "0.7", features = ["gettext-system"] }
serde = { version = "1", features = ["derive"] }
serde_repr = "0.1"
zbus = "5"
