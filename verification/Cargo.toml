[package]
name = "universe_grid"
version = "0.1.0"
edition = "2021"
publish = false

[dependencies]
glib = "0.15"
gtk4 = "0.4"
once_cell = "1"
