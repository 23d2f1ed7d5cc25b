[package]
name = "rs_trade_processor"
version = "0.1.0"
edition = "2021"
publish = false

[dependencies]
rand = "=0.8.8"
aeron-rs = "=0.1.8"
