[package]
name = "bluetooth_spp"
version = "0.1.0"
edition = "2021"
publish = false

[dependencies]
thiserror = "2"
tokio = { version = "1", features = ["rt-multi-thread", "time"] }
uuid = "1"
windows = { version = "0.61", features = ["Devices_Bluetooth", "Devices_Bluetooth_Rfcomm", "Devices_Enumeration", "Foundation", "Foundation_Collections", "Networking", "Networking_Sockets", "Storage_Streams"] }
windows-future = "0.2"
