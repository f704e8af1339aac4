[package]
name = "timesheets"
version = "0.1.0"
edition = "2021"
publish = false

[dependencies]
chrono = { version = "0.4", default-features = false, features = ["std", "clock"] }
clap = { version = "4", features = ["derive"] }
itertools = "0.13"
pest = "2"
pest_derive = "2"
thiserror = "1"
