[package]
name = "serial_tty"
version = "0.1.0"
edition = "2021"
publish = false

[dependencies]
alacritty_terminal = "=0.26.0"
libc = "=0.2.191"
log = "=0.4.34"
mio = { version = "=1.2.4", features = ["os-poll", "os-ext"] }
mio-serial = { version = "=5.0.7", default-features = false, features = ["serde"] }
serde = { version = "=1.0.229", features = ["derive"] }
