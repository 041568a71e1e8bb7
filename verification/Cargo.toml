[package]
name = "grid_rest_api"
version = "0.1.0"
edition = "2021"
publish = false

[dependencies]
actix = "0.7"
actix-web = { version = "0.7", default-features = false }
log = "0.4"
