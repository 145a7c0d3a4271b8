[package]
name = "scope_panel"
version = "0.1.0"
edition = "2021"
publish = false

[dependencies]
cairo-rs = "=0.9.1"
glib = "=0.10.3"
gtk = "=0.9.2"
redpitaya-scpi = "=0.28.0"
relm = "=0.21.0"
relm-derive = "=0.21.0"
