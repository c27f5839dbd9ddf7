[package]
name = "plugin_driver"
version = "0.1.0"
edition = "2021"
publish = false

[dependencies]
arcstr = "1"
dashmap = "6"
