[package]
name = "k1"
version = "0.1.0"
edition = "2021"
publish = false

[dependencies]
ash = "0.38"
log = "0.4"
libm = "0.2"
heapless = "0.8"
android_logger = "0.14"
android-activity = "0.6"
ndk-glue = "0.7"
