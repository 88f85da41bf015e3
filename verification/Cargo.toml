[package]
name = "cortex-m"
version = "0.1.0"
edition = "2021"
publish = false

[dependencies]
aligned = "=0.3.5"
bare-metal = "=0.2.5"
volatile-register = "=0.2.2"
