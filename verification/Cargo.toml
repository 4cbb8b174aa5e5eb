[package]
name = "mainlogic"
version = "0.1.0"
edition = "2021"
publish = false

[dependencies]
android_logger = "*"
chrono = "0.4"
jni = "0.21"
log = "0.4"
