[package]
name = "nobs"
version = "0.1.0"
edition = "2021"
publish = false

[dependencies]
actix-web = { version = "4", default-features = false }
futures = "0.3"
git2 = { version = "*", default-features = false }
hyper = "0.14"
mime_guess = "2"
rust-embed = "8"
serde = { version = "1", features = ["derive"] }
serde_json = "1"
tera = { version = "1", default-features = false }
toml = "0.8"
walkdir = "2"
