[package]
name = "ax5043"
version = "0.1.0"
edition = "2021"
publish = false

[dependencies]
anyhow = "=1.0.104"
clap = { version = "=4.6.7", features = ["derive"] }
crc = "=3.4.0"
gpiod = "=0.2.3"
gpiod-core = "=0.2.3"
mio = { version = "=0.8.11", features = ["os-ext"] }
mio-signals = "=0.2.0"
spidev = "=0.7.1"
timerfd = "=1.6.0"
