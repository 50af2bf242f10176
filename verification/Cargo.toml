[package]
name = "coi_actix_web"
version = "0.1.0"
edition = "2021"
publish = false

[dependencies]
actix-web = "=4.15.0"
actix-service = "=2.0.3"
coi = "=0.10.3"
futures = "=0.3.34"
syn = { version = "=3.0.6", features = ["full"] }
quote = "=1.0.47"
proc-macro2 = "=1.0.107"
