[package]
name = "winrtble"
version = "0.1.0"
edition = "2021"
publish = false

[dependencies]
uuid = "=1.29.0"
log = "=0.4.35"
tokio = { version = "=1.54.1", features = ["time"] }
windows = { version = "=0.61.3", features = ["Foundation", "Storage_Streams", "Devices_Bluetooth", "Devices_Bluetooth_GenericAttributeProfile", "Devices_Enumeration"] }
windows-core = "=0.61.2"
