[package]
name = "netspeed_core"
version = "0.1.0"
edition = "2021"
publish = false

[dependencies]
embassy-net = { version = "=0.9.1", default-features = false, features = ["proto-ipv4", "medium-ethernet", "udp", "dhcpv4"] }
embassy-time = "=0.5.1"
embassy-sync = "=0.8.0"
embassy-executor = "=0.10.0"
static_cell = "=2.1.1"
embassy-embedded-hal = "*"
esp-alloc = "*"
esp-backtrace = "*"
esp-bootloader-esp-idf = "*"
esp-hal = "1.0.0-beta.1"
esp-hal-embassy = "*"
esp-println = "*"
esp-wifi = "*"
st7735 = "*"
