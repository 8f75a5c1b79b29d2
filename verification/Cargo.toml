[package]
name = "lang_switcher"
version = "0.1.0"
edition = "2021"
publish = false

[dependencies]
clipboard = "0.5"
rdev = "0.5"
