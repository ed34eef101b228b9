[package]
name = "webidl_types"
version = "0.1.0"
edition = "2021"
publish = false

[dependencies]
heck = "*"
syn = "*"
weedle = "*"
