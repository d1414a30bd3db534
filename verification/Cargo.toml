[package]
name = "gh_ship"
version = "0.1.0"
edition = "2021"
publish = false

[dependencies]
boon = "0.6"
minijinja = "2"
serde = { version = "1", features = ["derive"] }
serde_json = "1"
serde_norway = "0.9"
strsim = "0.11"
uuid = { version = "1", features = ["v4"] }
owo-colors = "4"
clap = { version = "4", features = ["derive", "env"] }
demand = "1"
miette = { version = "7", features = ["fancy"] }
thiserror = "2"
tempfile = "3"
