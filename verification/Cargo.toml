[package]
name = "resvg_jni"
version = "0.1.0"
edition = "2021"
publish = false

[dependencies]
resvg = "=0.48.1"
image = "=0.25.10"
bytemuck = "1"
jni = "=0.22.4"
jni_fn = "=0.1.2"
