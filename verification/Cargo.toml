[package]
name = "v_customizer"
version = "0.1.0"
edition = "2021"
publish = false
