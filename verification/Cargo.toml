[package]
name = "deepwell"
version = "0.1.0"
edition = "2021"
publish = false

[dependencies]
async-trait = "=0.1.92"
http = "=1.5.0"
serde = { version = "=1.0.229", features = ["derive"] }
time = { version = "=0.3.55", features = ["serde"] }
tower = "=0.5.3"

[dev-dependencies]
strum_macros = "=0.27.2"
