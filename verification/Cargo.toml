[package]
name = "soteria"
version = "0.1.0"
edition = "2021"
publish = false

[dependencies]
etc-passwd = "*"
gettext-rs = { version = "0.7", features = ["gettext-system"] }
gtk4 = "0.9"
relm4 = "0.9"
tokio = { version = "1", features = ["io-util", "macros", "net", "process", "rt", "sync"] }
tracing = "0.1"
zbus = { version = "5", default-features = false, features = ["tokio"] }
zeroize = "1"
