[package]
name = "fastly_bridge"
version = "0.1.0"
edition = "2021"
publish = false

[dependencies]
cxx = "=1.0.205"
esi = "0.6"
fastly = "=0.11.13"
fastly-shared = "=0.11.13"
http = "=1.5.0"
log = "=0.4.34"
log-fastly = "=0.11.13"
quick-xml = "0.38"
thiserror = "2"
