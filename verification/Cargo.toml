[package]
name = "geoclue_bridge"
version = "0.1.0"
edition = "2021"
publish = false

[dependencies]
serde_json = "1"
dbus = "0.9"
