[package]
name = "databend_query"
version = "0.1.0"
edition = "2021"
publish = false

[dependencies]
opendal = { version = "=0.59.5", default-features = false, features = ["services-memory"] }
serde = { version = "=1.0.229", features = ["derive"] }
async-trait = "=0.1.92"
