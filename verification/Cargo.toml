[package]
name = "fracture"
version = "0.1.0"
edition = "2021"
publish = false

[dependencies]
ashpd = "0.11"
dbus = "0.9"
gnome_window_calls = "0.1"
gtk4 = "0.10"
pipewire = "0.9"
serde = { version = "1", features = ["derive"] }
tokio = { version = "1", features = ["rt", "net"] }
wgpu = "28"
winit = "0.30"
