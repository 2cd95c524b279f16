[package]
name = "wifi_supervisor"
version = "0.1.0"
edition = "2021"
publish = false

[dependencies]
defmt = "=1.2.0"
embassy-executor = "=0.7.0"
embassy-time = "=0.4.0"
esp-alloc = { version = "=0.8.0", features = ["defmt"] }
esp-backtrace = { version = "=0.17.0", features = ["defmt", "esp32", "exception-handler", "panic-handler"] }
esp-bootloader-esp-idf = { version = "=0.2.0", features = ["esp32"] }
esp-hal = { version = "=1.0.0-rc.0", features = ["defmt", "esp32", "unstable"] }
esp-hal-embassy = { version = "=0.9.1", features = ["defmt", "esp32"] }
esp-println = { version = "=0.15.0", features = ["defmt-espflash", "esp32"] }
esp-wifi = { version = "=0.15.1", features = ["builtin-scheduler", "defmt", "esp-alloc", "esp32", "smoltcp", "wifi"] }
smoltcp = { version = "=0.12.0", default-features = false, features = ["medium-ethernet", "proto-ipv4", "socket-dhcpv4", "socket-tcp", "socket-udp"] }
