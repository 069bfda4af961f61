[package]
name = "invoice_models"
version = "0.1.0"
edition = "2021"
publish = false

[dependencies]
argon2 = "*"
diesel = { version = "*", features = ["postgres"] }
