[package]
name = "bitgeon"
version = "0.1.0"
edition = "2021"
publish = false

[dependencies]
anyhow = "1"
crossbeam-channel = "0.5"
crossterm = "0.25"
igd = "0.12"
path-absolutize = "3"
tui = "0.19"
walkdir = "2"
