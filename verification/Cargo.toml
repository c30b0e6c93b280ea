[package]
name = "multiseat"
version = "0.1.0"
edition = "2021"
publish = false

[dependencies]
convert_case = "=0.12.0"
logind-zbus = "=5.3.2"
zbus = "=5.19.0"
udev = "=0.9.3"
evdev = "=0.13.2"
