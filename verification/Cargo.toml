[package]
name = "ck3_community_title_project"
version = "0.1.0"
edition = "2021"
publish = false

[dependencies]
jomini = "=0.37.2"
serde = { version = "=1.0.229", features = ["derive"] }
serde_yaml = "0.9"
tera = "=1.20.1"
