[package]
name = "pkg_dispatcher"
version = "0.1.0"
edition = "2021"
publish = false

[dependencies]
subprocess = "0.2"
gtk = "0.16"
serde_json = "1"
