[package]
name = "bingo_fc"
version = "0.1.0"
edition = "2021"
publish = false

[dependencies]
arbitrary-int = "=1.3.0"
embedded-hal = "=1.0.0"
embedded-hal-bus = "=0.3.0"
cortex-m = "=0.7.10"
cortex-m-rt = "=0.7.7"
panic-halt = "=1.0.0"
nalgebra = "=0.35.0"
stm32f4xx-hal = { version = "=0.23.0", features = ["stm32f405", "usb_fs"] }
synopsys-usb-otg = "=0.4.0"
usb-device = "=0.3.2"
usbd-serial = "=0.2.2"
