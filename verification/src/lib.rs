//! The decisions of the VNT2 desktop and mobile shell, with their contracts:
//! Windows elevation and command-line quoting, the window close behavior and
//! tray menu, the Android VPN start payload, the fallback device id, socket
//! protection on Android, and the QUIC transport's connection state.

pub mod android_vpn;
pub mod device_id;
pub mod quic;
pub mod shell;
pub mod socket_protect;
pub mod text;
pub mod windows_elevation;
