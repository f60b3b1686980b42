[package]
name = "pikmin_pilot"
version = "0.1.0"
edition = "2021"
publish = false

[dependencies]
idevice = { version = "=0.1.68", default-features = false, features = ["afc", "core_device_proxy", "house_arrest", "installation_proxy", "remote_pairing", "ring", "rsd", "tunnel_tcp_stack", "usbmuxd", "xpc"] }
tokio = { version = "=1.54.1", features = ["macros", "rt-multi-thread", "time"] }
