[package]
name = "selector_link"
version = "0.1.0"
edition = "2021"
publish = false

[dependencies]
embassy-executor = "0.6"
embassy-futures = "0.1"
embassy-time = "0.3"
esp-alloc = "0.5"
esp-backtrace = { version = "0.14", features = ["esp32c3", "exception-handler", "panic-handler", "println"] }
esp-hal = { version = "0.21", features = ["esp32c3"] }
esp-hal-embassy = { version = "0.4", features = ["esp32c3"] }
esp-println = { version = "0.12", features = ["esp32c3", "log"] }
esp-wifi = { version = "0.10", features = ["esp32c3", "esp-now", "async"] }
