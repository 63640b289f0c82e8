[package]
name = "html_validator"
version = "0.1.0"
edition = "2021"
publish = false

[dependencies]
html5ever = "=0.39.0"
markup5ever_rcdom = "=0.39.0"
clap = "=4.6.7"
colored = "=3.1.1"
crossterm = "=0.25.0"
tui = "=0.19.0"
