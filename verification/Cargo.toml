[package]
name = "kite-tools"
version = "0.1.0"
edition = "2021"
publish = false

[dependencies]
crossterm = "=0.29.0"
lazy_static = "=1.5.1"
ratatui = "=0.30.2"
sysinfo = "=0.39.6"
textwrap = "=0.16.4"
