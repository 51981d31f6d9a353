[package]
name = "xosms"
version = "0.1.0"
edition = "2021"
publish = false

[dependencies]
dashmap = "=5.5.3"
dbus = "=0.9.12"
dbus-crossroads = "=0.5.3"
float_duration = { version = "=0.3.3", default-features = false }
napi = { version = "=2.16.17", default-features = false, features = ["napi4", "async"] }
napi-derive = "=2.16.13"
oneshot = "=0.1.13"
