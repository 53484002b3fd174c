[package]
name = "note_actions"
version = "0.1.0"
edition = "2021"
publish = false

[dependencies]
egui = "=0.31.1"
hex = "=0.4.3"
nostrdb = "=0.8.0"
tracing = "0.1"
