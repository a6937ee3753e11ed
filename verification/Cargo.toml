[package]
name = "rusty_beagle"
version = "0.1.0"
edition = "2021"
publish = false

[dependencies]
winapi = { version = "0.3", features = ["winuser", "d3d11", "d3dcommon", "minwindef", "windef", "winerror", "libloaderapi", "dxgi", "dxgitype", "dxgiformat", "guiddef", "unknwnbase", "ntdef"] }
ultraviolet = "*"
