[package]
name = "toggdoro"
version = "0.1.0"
edition = "2021"
publish = false

[dependencies]
chrono = { version = "0.4", features = ["serde"] }
clap = "2"
failure = "0.1"
handlebars = "3"
lettre = { version = "0.9", default-features = false, features = ["sendmail-transport"] }
lettre_email = "0.9"
notify-rust = "4"
regex = "1"
reqwest = "0.9"
serde = "1"
serde_derive = "1"
signal-hook = "0.1"
slack-hook = "0.8"
toml = "0.5"
