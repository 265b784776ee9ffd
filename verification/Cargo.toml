[package]
name = "iana_time_zone"
version = "0.1.0"
edition = "2021"
publish = false

[dependencies]
android_system_properties = "*"
core-foundation-sys = "*"
errno = "*"
js-sys = "*"
libc = "*"
rustix = { version = "*", features = ["fs"] }
wasm-bindgen = "*"
