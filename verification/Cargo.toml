[package]
name = "xwiimote"
version = "0.2.2"
edition = "2021"
publish = false

[dependencies]
clap = { version = "=4.6.7", features = ["derive"] }
futures-core = "=0.3.34"
futures-util = "=0.3.34"
libc = "=0.2.191"
once_cell = "=1.21.4"
signal-hook = "=0.3.18"
tokio = { version = "=1.54.1", features = ["macros", "rt", "time"] }
uinput-tokio = "=0.1.36"
