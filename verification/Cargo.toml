[package]
name = "session_config"
version = "0.1.0"
edition = "2021"
publish = false

[dependencies]
jni = "=0.21.1"
