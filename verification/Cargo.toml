[package]
name = "beat_strip"
version = "0.1.0"
edition = "2021"
publish = false

[dependencies]
critical-section = "=1.2.0"
embassy-executor = "=0.5.1"
embassy-futures = "=0.1.2"
embassy-sync = "=0.6.2"
embassy-time = { version = "=0.3.2", features = ["generic-queue-8"] }
esp-alloc = "=0.4.0"
esp-backtrace = { version = "=0.13.0", features = ["esp32", "panic-handler", "exception-handler", "println"] }
esp-hal = { version = "=0.18.0", features = ["esp32", "async"] }
esp-hal-embassy = { version = "=0.1.0", features = ["esp32", "time-timg0"] }
esp-println = { version = "=0.10.0", features = ["esp32", "log"] }
esp-wifi = { version = "=0.6.0", features = ["esp32", "ble", "async"] }
fugit = "=0.3.9"
infrared = "=0.14.2"
log = "=0.4.34"
