[package]
name = "dinfo"
version = "0.1.0"
edition = "2021"
publish = false

[dependencies]
zbus = "=3.15.2"
upower_dbus = "=0.3.2"
futures = "=0.3.34"
async-lock = "*"
