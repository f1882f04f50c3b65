# vnt_app

The decisions of the VNT2 shell, verified with Verus, and the application
around them.

- `src/` — the verified library:
  - `windows_elevation`: the elevation steps, Windows command-line quoting
    (with the proof that the C runtime splits the written command line back
    into the same arguments) and UTF-16 wide strings;
  - `shell`: the close behavior, close prompt and exit state of the desktop
    shell, the tray menu, and the one-shot HTTP shutdown signal;
  - `android_vpn`: file-name checks and the Android VPN start payload;
  - `device_id`: the fallback device id and its folder;
  - `socket_protect`: the protector that keeps the VPN's own sockets out of
    the VPN;
  - `quic`: the connection state of the QUIC transport;
  - `text`: character-level helpers (trimming, equality).
- `app/` — the Tauri application, Win32 calls, sockets and QUIC I/O, which
  carry out what the library decides.
- `tests/` — tests of the library on concrete values.
