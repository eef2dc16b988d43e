[package]
name = "adhesive"
version = "0.1.0"
edition = "2021"
publish = false

[dependencies]
jni = { version = "=0.21.1", features = ["invocation"] }
arrow = { version = "=59.3.0", features = ["ffi"] }
datafusion = { version = "=55.1.0", default-features = false }
async-trait = "*"
once_cell = "*"
random-string = "*"
