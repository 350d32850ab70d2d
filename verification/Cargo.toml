[package]
name = "wakesp"
version = "0.1.0"
edition = "2021"
publish = false

[dependencies]
heapless = "=0.8.0"
log = "=0.4.34"
embassy-executor = "=0.7.0"
embassy-futures = "=0.1.2"
embassy-net = { version = "=0.6.0", features = ["tcp", "udp", "dns", "dhcpv4", "dhcpv4-hostname", "medium-ethernet", "proto-ipv4"] }
embassy-sync = "=0.6.2"
embassy-time = "=0.4.0"
esp-alloc = "=0.6.0"
esp-backtrace = { version = "=0.15.1", features = ["esp32c6", "panic-handler", "println"] }
esp-hal = { version = "=0.23.1", features = ["esp32c6"] }
esp-hal-embassy = { version = "=0.6.0", features = ["esp32c6"] }
esp-println = { version = "=0.13.1", features = ["esp32c6", "log"] }
esp-wifi = { version = "=0.12.0", features = ["esp32c6", "wifi"] }
