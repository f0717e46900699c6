[package]
name = "mongo_service"
version = "0.1.0"
edition = "2021"
publish = false

[dependencies]
bson = { version = "=3.1.0", features = ["serde"] }
cxx = "=1.0.205"
log = "=0.4.34"
serde = { version = "=1.0.229", features = ["derive"] }
