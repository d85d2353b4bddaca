[package]
name = "imgui_presentation"
version = "0.1.0"
edition = "2021"
publish = false

[dependencies]
syn = { version = "=3.0.6", features = ["full"] }
proc-macro2 = "=1.0.107"
quote = "=1.0.47"
