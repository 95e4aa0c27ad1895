[package]
name = "ustreamer_bridge"
version = "0.1.0"
edition = "2021"
publish = false

[dependencies]
protobuf = "3"
up-rust = "0.1"
jni = "0.21"
once_cell = "1"
async-std = "1"
log = "0.4"
android_logger = "0.13"
