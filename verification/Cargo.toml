[package]
name = "scanners_and_such"
version = "0.1.0"
edition = "2021"
publish = false

[dependencies]
async-hid = "0.4"
async-trait = "0.1"
console_error_panic_hook = "0.1"
futures = "0.3"
hex = "0.4"
itertools = "0.14"
nusb = { version = "0.2", features = ["smol"] }
serde = { version = "1", features = ["derive"] }
serde-wasm-bindgen = "0.6"
smol = "2"
tap = "1"
thiserror = "2"
tracing = "0.1"
tracing-subscriber = { version = "0.3", features = ["env-filter"] }
tracing-web = "0.1"
wasm-bindgen = "0.2"
wasm-bindgen-futures = "0.4"
web-sys = { version = "0.3", features = ["Event", "EventTarget", "Hid", "HidDevice", "HidDeviceFilter", "HidDeviceRequestOptions", "HidInputReportEvent", "Navigator", "Usb", "UsbDevice", "UsbDeviceRequestOptions", "UsbInTransferResult", "Window"] }
