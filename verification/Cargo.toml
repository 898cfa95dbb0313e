[package]
name = "spect"
version = "0.1.0"
edition = "2021"
publish = false

[dependencies]
bt-hci = "=0.6.0"
btleplug = "=0.11.8"
clap = { version = "4", features = ["derive"] }
# Has the libdbus that btleplug needs on Linux built from source.
dbus = { version = "0.9", features = ["vendored"] }
defmt = "1"
embassy-executor = "0.9"
embassy-futures = "0.1"
embassy-sync = "0.7"
embassy-time = "0.5"
esp-alloc = "=0.9.0"
esp-bootloader-esp-idf = { version = "=0.5.0", features = ["esp32c6"] }
esp-hal = { version = "=1.0.0", features = ["esp32c6", "unstable"] }
esp-radio = { version = "=0.17.0", features = ["ble", "esp32c6", "unstable"] }
esp-rtos = { version = "=0.2.0", features = ["embassy", "esp-alloc", "esp-radio", "esp32c6"] }
rtt-target = { version = "0.6", features = ["defmt"] }
tokio = { version = "1", features = ["macros", "rt-multi-thread", "time"] }
trouble-host = { version = "=0.5.1", features = ["security"] }
uuid = "=1.29.0"
