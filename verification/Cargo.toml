[package]
name = "raec"
version = "0.1.0"
edition = "2021"
publish = false

[dependencies]
anyhow = "1"
circular-queue = "0.2"
clap = "2"
cpal = "0.13"
rand = "0.8"
rand_distr = "0.4"
ringbuf = "0.2"
