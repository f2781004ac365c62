[package]
name = "petscan"
version = "0.1.0"
edition = "2021"
publish = false

[dependencies]
chrono = { version = "0.4", default-features = false, features = ["now"] }
mediawiki = "0.1"
mysql = { version = "*", default-features = false, features = ["minimal"] }
rand = "0.8"
rayon = "1"
regex = "1"
serde_json = "1"
