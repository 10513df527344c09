[package]
name = "ws2812_bitbang"
version = "0.1.0"
edition = "2021"

[dependencies]
cortex-m = "0.7"
cortex-m-rt = "0.7"
defmt = "0.3"
defmt-rtt = "0.4"
embedded-hal = "0.2"
nrf52840-hal = "0.16"
