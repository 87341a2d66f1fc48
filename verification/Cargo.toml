[package]
name = "vimview"
version = "0.1.0"
edition = "2021"
publish = false

[dependencies]
rustc-hash = "1"
log = "0.4"
once_cell = "1"
tokio = { version = "1", features = ["full"] }
nvim-rs = { version = "*", features = ["use_tokio"] }
glib = "0.15"
gtk4 = "0.4"
pango = "0.15"
pangocairo = "0.15"
cairo-rs = "0.15"
relm4 = "0.4"
relm4-macros = "0.4"
