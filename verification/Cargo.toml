[package]
name = "kessler_payload"
version = "0.1.0"
edition = "2021"
publish = false

[dependencies]
fixed = "1"
embedded-hal = "0.2"
nb = "1"
void = "1"
ufmt = "0.2"
critical-section = "1"
msp430 = "*"
msp430fr2355 = "*"
no-std-compat = "*"
