[package]
name = "lib-conf"
version = "0.1.0"
edition = "2021"
publish = false

[dependencies]
syn = { version = "2", features = ["full"] }
quote = "1"
proc-macro2 = "1"
prettyplease = "0.2"
serde = { version = "1", features = ["derive"] }
thiserror = "2"
tracing = "0.1"
log = "0.4"
secrecy = "0.10"
