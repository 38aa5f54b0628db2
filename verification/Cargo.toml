[package]
name = "java_bridge"
version = "0.1.0"
edition = "2021"
publish = false

[dependencies]
jni = "=0.21.1"
actix-web = { version = "=4.18.1", default-features = false, features = ["macros"] }

[dev-dependencies]
jni = { version = "=0.21.1", features = ["invocation"] }
