[package]
name = "jdonmysnore"
version = "0.1.0"
edition = "2021"
publish = false

[dependencies]
chrono = "0.4"
leptos = { version = "0.6", features = ["csr"] }
