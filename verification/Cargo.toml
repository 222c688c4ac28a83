[package]
name = "waycap-rs"
version = "0.1.0"
edition = "2021"
publish = false

[dependencies]
crossbeam = "0.8"
log = "0.4"
libc = "0.2"
bytemuck = "1"
ash = "0.38"
khronos-egl = { version = "6", features = ["dynamic"] }
libloading = "0.8"
gl = "0.14"
ffmpeg-next = "7"
pipewire = "0.9"
portal-screencast-waycap = "*"
wayland-client = { version = "0.29", features = ["use_system_lib"] }
cust = "0.3"
