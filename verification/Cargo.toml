[package]
name = "usbd_hid_devices"
version = "0.1.0"
edition = "2021"
publish = false

[dependencies]
hash32 = "=0.2.1"
embedded-hal = "=0.2.7"
usb-device = "=0.3.2"
embedded-time = "=0.12.1"
cortex-m-rt = "=0.7.7"
adafruit-macropad = "=0.8.0"
log = "=0.4.34"
