[package]
name = "overview_status"
version = "0.1.0"
edition = "2021"
publish = false

[dependencies]
chrono = "0.4"
titlecase = "*"
iced = { version = "0.12", default-features = false }
iced_aw = { version = "0.9", default-features = false, features = ["number_input", "icons"] }
