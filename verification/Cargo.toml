[package]
name = "gacha_gotcha"
version = "0.1.0"
edition = "2021"
publish = false

[dependencies]
anchor-lang = "=0.31.2"
bytemuck = "=1.25.2"
mpl-core = "=0.11.2"
switchboard-on-demand = "=0.13.0"
