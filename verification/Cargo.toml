[package]
name = "dmx_fixture"
version = "0.1.0"
edition = "2021"
publish = false

[dependencies]
embassy-sync = "=0.6.2"
embassy-time = "=0.4.0"
embassy-executor = { version = "=0.7.0", features = ["arch-std", "executor-thread"] }
embassy-futures = "=0.1.2"
embassy-stm32 = { version = "=0.2.0", features = ["stm32f767zi", "time-driver-tim2", "exti", "memory-x", "unstable-pac"] }
embassy-usb = "=0.4.0"
static_cell = "=2.1.1"
defmt-rtt = "=0.4.2"
panic-probe = "=0.3.2"

[dev-dependencies]
# The mailboxes lock with a critical section. On a host, where the tests
# run, the implementation for std provides it.
critical-section = { version = "=1.2.0", features = ["std"] }
