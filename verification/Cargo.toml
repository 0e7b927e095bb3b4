[package]
name = "credstore"
version = "0.1.0"
edition = "2021"
publish = false

[dependencies]
base64 = "0.13"
sodiumoxide = "0.2"
clap = "3"
