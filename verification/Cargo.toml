[package]
name = "ndk"
version = "0.1.0"
edition = "2021"
publish = false

[dependencies]
ndk-sys = { version = "0.6", features = ["test"] }
jni-sys = "0.3"
num_enum = "0.7"
bitflags = "2"
thiserror = "1"
raw-window-handle = "0.6"
static_assertions = "1"
