[package]
name = "rudimento"
version = "0.1.0"
edition = "2021"
publish = false

[dependencies]
libc = "=0.2.191"
dbus = { version = "=0.9.12", features = ["vendored"] }
libudev = "=0.3.0"
drm = "=0.14.1"
gbm = { version = "=0.18.0", default-features = false, features = ["drm-support"] }
