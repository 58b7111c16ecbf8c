[package]
name = "embedded_services"
version = "0.1.0"
edition = "2021"
publish = false

[dependencies]
bitvec = "=1.0.1"
heapless = "=0.8.0"
embedded-fans-async = "=0.2.0"
embassy-futures = "=0.1.2"
embassy-sync = "=0.7.2"
hash32 = "=0.3.1"
