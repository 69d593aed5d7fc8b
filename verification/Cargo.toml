[package]
name = "ser-no-std"
version = "0.1.0"
edition = "2021"
publish = false

[dependencies]
heapless = "0.8"
bitmask-enum = "*"
critical-section = "*"
embassy-executor = "*"
embassy-net = { version = "*", features = ["dhcpv4", "dns", "tcp", "udp"] }
embassy-sync = "*"
embassy-time = "*"
embedded-io-async = "*"
esp-alloc = "*"
esp-backtrace = "*"
esp-bootloader-esp-idf = "*"
esp-hal = "*"
esp-println = "*"
esp-radio = "*"
esp-rtos = "*"
libm = "*"
portable-atomic = "*"
reqwless = { version = "*", default-features = false }
sntpc = "*"
sntpc-net-embassy = "*"
static_cell = "*"
