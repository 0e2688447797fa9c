[package]
name = "gb_emu"
version = "0.1.0"
edition = "2021"
publish = false

[dependencies]
font8x8 = "0.3.1"
winit = { version = "0.30", default-features = false, features = ["rwh_06", "x11"] }
softbuffer = { version = "0.4", default-features = false, features = ["x11"] }
ringbuf = "0.4"
structopt = "0.3"
env_logger = "0.11"
log = "0.4"
