[package]
name = "kee"
version = "1.7.0"
edition = "2021"
publish = false

[dependencies]
chrono = "0.4"
clap = { version = "4", features = ["derive"] }
clap_complete = "4"
configparser = "3"
dialoguer = { version = "0.11", features = ["fuzzy-select"] }
dirs = "5"
hostname = "0.4"
serde = { version = "1", features = ["derive"] }
serde_json = "1"
ureq = { version = "2", features = ["json"] }
