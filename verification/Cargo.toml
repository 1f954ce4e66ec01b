[package]
name = "kpg_fixture"
version = "0.1.0"
edition = "2021"
publish = false

[dependencies]
rand = "=0.7.3"
postgres = "=0.19.14"
dockworker = "=0.17.0"
log = "=0.4.34"
derive_more = "=0.99.20"
tokio = { version = "=1.54.1", features = ["rt"] }
