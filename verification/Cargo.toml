[package]
name = "quickjslib"
version = "0.1.0"
edition = "2021"
publish = false

[dependencies]
jni = "=0.21.1"
libc = "=0.2.190"
log = "=0.4.34"
rquickjs = "=0.6.2"
