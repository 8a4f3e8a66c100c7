[package]
name = "cosmi_kit"
version = "0.1.0"
edition = "2021"
publish = false

[dependencies]
chrono = "*"
fastrand = "*"
open = "*"
dirs = "*"
tokio = { version = "*", default-features = false, features = ["rt"] }
sqlx = { version = "*", default-features = false, features = ["sqlite", "runtime-tokio"] }
