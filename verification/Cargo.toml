[package]
name = "osd_overlay"
version = "0.1.0"
edition = "2021"
publish = false

[dependencies]
gtk = "0.18"
gdk = "0.18"
glib = "0.18"
cairo-rs = "0.18"
