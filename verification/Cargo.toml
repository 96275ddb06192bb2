[package]
name = "oscps"
version = "0.1.0"
edition = "2021"
publish = false

[dependencies]
anyhow = "*"
nalgebra = "=0.35.0"
pubchem = "=0.1.1"
sqlx = { version = "*", default-features = false, features = ["postgres", "runtime-tokio"] }
uom = { version = "=0.36.0", default-features = false, features = ["autoconvert", "f64", "si", "std"] }
uuid = "*"
