[package]
name = "imapdump"
version = "0.1.0"
edition = "2021"
publish = false

[dependencies]
clap = { version = "4", features = ["derive"] }
imap = "2"
log = "0.4"
native-tls = "0.2"
sha2 = "0.10"
simple_logger = "*"
tokio = { version = "1", features = ["macros", "rt-multi-thread"] }
