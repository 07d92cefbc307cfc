[package]
name = "rspc_actix"
version = "0.1.0"
edition = "2021"
publish = false

[dependencies]
actix = "0.13"
actix-web = "4"
actix-web-actors = "4"
form_urlencoded = "1"
futures = "0.3"
rspc = "0.1"
serde_json = "1"
tokio = { version = "1", features = ["sync"] }
