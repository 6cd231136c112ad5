[package]
name = "rhinostream"
version = "0.1.0"
edition = "2021"
publish = false

[dependencies]
clap = { version = "=4.6.7", features = ["string"] }
tokio = { version = "1", features = ["rt-multi-thread", "sync", "time"] }
futures = "0.3"
log = "0.4"
env_logger = "0.10"
win_desktop_duplication = "=0.10.11"
dxfilter = "=0.5.13"

[dependencies.windows]
version = "=0.57.0"
features = ["Win32_Foundation", "Win32_Security", "Win32_Graphics_Direct3D11", "Win32_Graphics_Dxgi", "Win32_Graphics_Dxgi_Common", "Win32_System_Threading", "Win32_System_SystemServices", "Win32_Graphics_Gdi", "Win32_Graphics_Direct3D", "Win32_System_Com", "Win32_UI_WindowsAndMessaging", "Win32_UI_HiDpi", "Win32_System_StationsAndDesktops"]
