[package]
name = "snippet"
version = "0.1.0"
edition = "2021"
publish = false

[dependencies]
arboard = "3"
async-trait = "0.1"
base64 = "0.22"
futures-util = "0.3"
global-hotkey = "0.7"
image = { version = "0.25", default-features = false, features = ["png"] }
reqwest = { version = "0.12", default-features = false, features = ["json", "stream"] }
serde = { version = "1", features = ["derive"] }
serde_json = "1"
tokio = { version = "1", features = ["rt", "sync", "io-util", "macros", "time"] }
tokio-util = { version = "0.7", features = ["io"] }
windows-sys = { version = "0.59", features = ["Win32_Foundation", "Win32_UI_WindowsAndMessaging", "Win32_UI_Input_KeyboardAndMouse", "Win32_System_DataExchange"] }
xcap = "*"
