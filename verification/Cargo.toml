[package]
name = "serenity_commands"
version = "0.1.0"
edition = "2021"
publish = false

[dependencies]
heck = "=0.5.0"
darling = "=0.20.11"
proc-macro2 = "=1.0.107"
quote = "=1.0.47"
syn = "=2.0.119"
thiserror = "=1.0.69"
serenity = { version = "=0.12.5", default-features = false, features = ["builder", "model", "rustls_backend"] }
