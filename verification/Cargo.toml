[package]
name = "hax"
version = "0.1.0"
edition = "2021"
publish = false

[dependencies]
widestring = "*"
detour = "*"
lazy_static = "*"
log = "*"
simple_logger = "*"
winapi = { version = "*", features = ["consoleapi", "wincon", "minwindef", "winnt", "libloaderapi"] }
