[package]
name = "crimpdeq"
version = "0.1.0"
edition = "2021"
publish = false

[dependencies]
arrayvec = { version = "=0.7.8", default-features = false }
embassy-sync = "=0.6.2"
bt-hci = "0.2.1"
critical-section = "1.2.0"
defmt = "0.3.10"
defmt-rtt = "0.4.1"
embassy-executor = "0.7.0"
embassy-futures = "0.1.1"
embassy-time = "0.4.0"
embedded-hal = "1.0.0"
embedded-storage = "0.3.1"
esp-alloc = "0.7.0"
esp-hal = { version = "1.0.0-beta.0", features = ["esp32c6", "unstable"] }
esp-hal-embassy = { version = "0.7.0", features = ["esp32c6"] }
esp-println = { version = "0.13.1", features = ["esp32c6"] }
esp-storage = { version = "0.5.0", features = ["esp32c6"] }
esp-wifi = { version = "0.13.0", features = ["esp32c6", "ble"] }
panic-rtt-target = "0.2.0"
static_cell = "2.1.0"
trouble-host = "0.1.0"
