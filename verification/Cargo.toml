[package]
name = "walker_preview"
version = "0.1.0"
edition = "2021"
publish = false

[dependencies]
mime = "0.3"
new_mime_guess = "*"
gtk4 = "*"
cairo-rs = "*"
poppler-rs = "*"
gtk4-layer-shell = "*"
grass = "*"
xdg = "*"
