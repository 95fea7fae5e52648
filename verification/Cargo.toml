[package]
name = "client_auth"
version = "0.1.0"
edition = "2021"
publish = false

[dependencies]
oauth2 = "4.4"
