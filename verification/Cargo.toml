[package]
name = "os"
version = "0.1.0"
edition = "2021"
publish = false

[dependencies]
hashbrown = "=0.17.1"
crossbeam-queue = { version = "=0.3.14", default-features = false, features = ["alloc"] }
log = "=0.4.35"
pc-keyboard = "=0.9.0"
futures-util = { version = "=0.3.34", default-features = false, features = ["alloc"] }
spin = "=0.12.3"
lazy_static = { version = "=1.5.1", features = ["spin_no_std"] }
conquer-once = { version = "=0.4.0", default-features = false }
x86_64 = { version = "=0.15.5", default-features = false, features = ["instructions"] }
bitflags = "=2.13.2"
linked_list_allocator = "=0.10.6"
proc-macro2 = "=1.0.107"
quote = "=1.0.47"
bootloader = { version = "=0.9.35", features = ["map_physical_memory"] }
