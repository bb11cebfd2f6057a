[package]
name = "cyphal-node"
version = "0.1.0"
edition = "2021"
publish = false

[dependencies]
canadensis = "=0.6.1"
canadensis_can = "=0.6.0"
canadensis_data_types = "=0.6.0"
cortex-m = "=0.7.10"
cortex-m-rt = "=0.7.7"
crc-any = "=3.1.0"
dyn-clone = "=1.0.20"
embassy-boot-rp = "=0.10.0"
embassy-embedded-hal = "=0.6.0"
embassy-executor = "=0.10.0"
embassy-futures = "=0.1.2"
embassy-rp = { version = "=0.10.0", features = ["rp2040"] }
embassy-sync = "=0.8.0"
embassy-time = { version = "=0.5.1", features = ["std"] }
embassy-usb = "=0.6.0"
embassy-usb-logger = "=0.6.0"
embedded-alloc = "=0.7.0"
embedded-can = "=0.4.1"
embedded-hal = "=1.0.0"
embedded-io-async = "=0.6.1"
embedded-storage-async = "=0.4.2"
heapless = "=0.9.3"
log = "=0.4.35"
mcp25xx = "=0.4.0"
noline = "=0.5.1"
portable-atomic = "=1.15.0"
sequential-storage = "=5.0.1"
signalo_filters = "=0.6.1"
slice-copy = "=0.3.0"
static_cell = "=2.1.1"
