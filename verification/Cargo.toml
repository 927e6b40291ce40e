[package]
name = "sys-dash"
version = "0.1.0"
edition = "2021"
publish = false

[dependencies]
cairo-rs = "0.9"
csv = "1"
gdk = "0.13"
gio = "0.9"
glib = "0.10"
gtk = "0.9"
log = "0.4"
regex = "1"
serde = { version = "1", features = ["derive"] }
simplelog = "0.8"
toml = "0.5"
