[package]
name = "geofusion"
version = "0.1.0"
edition = "2021"
publish = false

[dependencies]
chrono = "=0.4.45"
eskf = "=0.2.0"
nalgebra = "=0.25.4"
nav-types = "=0.5.2"
serde = "=1.0.229"
serde_json = "=1.0.154"
wasm-bindgen = "=0.2.129"
gloo-net = "=0.7.0"
gloo-timers = { version = "=0.4.0", features = ["futures"] }
sycamore = { version = "=0.9.4", features = ["suspense"] }
web-sys = { version = "=0.3.106", features = ["Window", "Navigator", "Geolocation", "Position", "Coordinates", "DeviceMotionEvent", "DeviceAcceleration", "DeviceOrientationEvent", "Storage", "Location", "console"] }
rust-i18n = "*"
git-version = "*"
