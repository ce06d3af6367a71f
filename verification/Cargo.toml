[package]
name = "pico_macropad_rs"
version = "0.1.0"
edition = "2021"
publish = false

[dependencies]
tinybmp = "=0.6.0"
embedded-graphics = "=0.8.2"
serde = { version = "=1.0.229", features = ["derive"] }
serde_cbor = "=0.11.2"
ciborium = "=0.2.2"
anyhow = { version = "=1.0.104", default-features = false }
embedded-sdmmc = "=0.9.0"
sh1106 = "=0.5.0"
embedded-hal = "=1.0.0"
embedded-hal-bus = "=0.3.0"
rotary-encoder-hal = "=0.6.0"
rp2040-hal = "=0.12.0"
rp-pico = "=0.9.0"
fugit = "=0.3.9"
frunk = { version = "=0.5.0", default-features = false }
embedded-alloc = "=0.7.0"
embedded-menu = "=0.7.0"
embedded-layout = "=0.4.2"
defmt-rtt = "=1.3.1"
panic-halt = "=1.0.0"
smart-leds = "=0.4.0"
ws2812-pio = "=0.9.0"
usb-device = "=0.3.2"
usbd-hid = "=0.10.2"
usbd-human-interface-device = "=0.6.1"
wasm-bindgen = "=0.2.130"
serde-wasm-bindgen = "=0.6.5"
