[package]
name = "phase_reflex"
version = "0.1.0"
edition = "2021"
publish = false

[dependencies]
crossterm = "*"
derive_setters = "*"
ratatui = "*"
