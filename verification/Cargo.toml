[package]
name = "zed_lib"
version = "0.1.0"
edition = "2021"
publish = false

[dependencies]
sea-orm = { version = "1", default-features = false, features = ["macros", "with-json", "with-chrono", "with-uuid"] }
