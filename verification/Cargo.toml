[package]
name = "pika_installer"
version = "0.1.0"
edition = "2021"
publish = false

[dependencies]
strfmt = "*"
pretty-bytes = "*"
chrono = "*"
duct = "*"
os_pipe = "*"
serde = { version = "*", features = ["derive"] }
serde_json = "*"
async-channel = "*"
tokio = { version = "*", features = ["rt-multi-thread", "net", "io-util"] }
gtk4 = "*"
libadwaita = "*"
glib = "*"
gio = "*"
gdk4 = "*"
vte4 = "*"
gnome-desktop = "*"
gettext-rs = "*"
rust-i18n = "*"
