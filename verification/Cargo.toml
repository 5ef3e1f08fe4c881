[package]
name = "gosling"
version = "0.1.0"
edition = "2021"
publish = false

[dependencies]
bson = "2"
data-encoding = "2"
rand = "0.8"
