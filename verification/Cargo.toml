[package]
name = "wineserver"
version = "0.1.0"
edition = "2021"
publish = false

[dependencies]
libc = "0.2"
errno = "*"
serde = { version = "1", features = ["derive"] }
serde_json = "1"
const_format = "*"
mach-sys = "*"
