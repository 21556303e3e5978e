[package]
name = "jni_bindgen"
version = "0.1.0"
edition = "2021"
publish = false

[dependencies]
jni = "0.21"
convert_case = "0.6"
syn = { version = "2", features = ["full"] }
proc-macro2 = "1"
quote = "1"
clap = { version = "4", features = ["derive"] }
