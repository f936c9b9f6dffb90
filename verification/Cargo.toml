[package]
name = "button_led"
version = "0.1.0"
edition = "2021"
publish = false

[dependencies]
cortex-m-rt = "=0.7.7"
defmt = "0.3"
defmt-rtt = "0.4"
derive_more = { version = "=1.0.0", default-features = false, features = ["display", "error", "from"] }
embassy-executor = "=0.7.0"
embassy-futures = "=0.1.2"
embassy-rp = { version = "=0.3.1", features = ["rp2040", "time-driver"] }
embassy-sync = "=0.6.2"
embassy-time = "=0.4.0"
enum-iterator = "=2.3.0"
panic-probe = { version = "0.3", features = ["print-defmt"] }

[dev-dependencies]
critical-section = { version = "=1.2.0", features = ["std"] }
