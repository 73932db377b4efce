[package]
name = "card_codec"
version = "0.1.0"
edition = "2021"
publish = false

[dependencies]
hex = "0.4"
url = "2"
serde_json = "1"
