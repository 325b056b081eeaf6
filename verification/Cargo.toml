[package]
name = "rsevents_extra"
version = "0.1.0"
edition = "2021"
publish = false

[dependencies]
rsevents = "0.3"
