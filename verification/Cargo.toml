[package]
name = "probeengine"
version = "0.1.0"
edition = "2021"
publish = false

[dependencies]
boringtun = { version = "=0.7.1", features = ["ffi-bindings"] }
jni = "=0.21.1"
rust2go = { version = "=0.4.3", features = ["build"] }
