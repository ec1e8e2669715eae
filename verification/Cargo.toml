[package]
name = "ergo-lib-jni"
version = "0.1.0"
edition = "2021"
publish = false

[dependencies]
ergo-lib = "=0.28.0"
ergo-lib-c-core = "=0.28.0"
serde_json = "=1.0.154"
base64 = "=0.22.1"
indexmap = "=1.9.3"
jni = "=0.19.0"
