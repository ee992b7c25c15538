[package]
name = "piston_shooty"
version = "0.1.0"
edition = "2021"
publish = false

[dependencies]
csv = "=1.4.0"
time = "=0.1.45"
serde = { version = "=1.0.229", features = ["derive"] }
piston_window = "=0.120.0"
piston = "=0.53.2"
piston2d-graphics = "=0.40.0"
pistoncore-glutin_window = "=0.69.0"
gfx_device_gl = "=0.16.2"
conrod_core = "=0.76.1"
conrod_piston = "=0.76.1"
ears = "=0.8.0"
find_folder = "=0.3.0"
nalgebra = "=0.30.1"
ncollide2d = "=0.33.0"
