[package]
name = "telegram_onedrive"
version = "0.1.0"
edition = "2021"
publish = false

[dependencies]
ansi_term = "0.12"
tracing = "0.1"
tracing-subscriber = "0.3"
