[package]
name = "wlx-capture"
version = "0.1.0"
edition = "2021"
publish = false

[dependencies]
ashpd = "=0.6.8"
idmap = "=0.2.22"
libc = "=0.2.191"
libspa-sys = "=0.7.2"
log = "=0.4.34"
nvfbc = "*"
pipewire = "=0.7.2"
rxscreen = { version = "=0.1.8", features = ["shm", "xrandr", "mouse"] }
smithay-client-toolkit = { version = "=0.18.1", default-features = false }
wayland-client = "=0.31.15"
