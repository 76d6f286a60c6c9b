[package]
name = "nih_plug_slint"
version = "0.1.0"
edition = "2021"
publish = false

[dependencies]
crossbeam = "=0.8.5"
serde = { version = "=1.0.229", features = ["derive"] }
keyboard-types = "=0.7.0"
parking_lot = "=0.12.5"
raw-window-handle = "=0.6.2"
softbuffer = { version = "=0.4.8", default-features = false, features = ["x11", "x11-dlopen"] }
