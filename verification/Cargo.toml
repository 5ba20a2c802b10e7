[package]
name = "rust_fc"
version = "0.1.0"
edition = "2021"
publish = false

[dependencies]
biquad = "*"
critical-section = "*"
defmt = "*"
defmt-rtt = "*"
embassy-executor = "*"
embassy-futures = "*"
embassy-rp = "*"
embassy-sync = "*"
embassy-time = "*"
embassy-usb = "*"
embassy-usb-driver = "*"
embedded-hal = "*"
embedded-hal-async = "*"
embedded-hal-bus = "*"
fixed = "*"
heapless = "*"
nalgebra = { version = "*", default-features = false, features = ["libm"] }
panic-probe = "*"
postcard = "*"
serde = { version = "*", default-features = false, features = ["derive"] }
static_cell = "*"
uf-ahrs = "*"
