[package]
name = "hid_hdr_client"
version = "0.1.0"
edition = "2021"
publish = false

[dependencies]
skyline-web = "*"
