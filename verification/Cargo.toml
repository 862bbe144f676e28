[package]
name = "bench_display"
version = "0.1.0"
edition = "2021"
publish = false

[dependencies]
hex = "=0.4.3"
textwrap = "=0.16.4"
log = "=0.4.34"
anyhow = "=1.0.104"
toml-cfg = "=0.2.0"
embedded-graphics = "=0.8.2"
embedded-hal = "=1.0.0"
embedded-svc = "=0.29.0"
esp-idf-svc = "=0.53.0"
ssd1680 = "=0.2.0"
