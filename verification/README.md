# nzxt_ctl

Fan and pump control for NZXT Kraken AIO coolers on Linux: a daemon that
reads temperatures from hwmon, applies per-channel curves or fixed modes,
enforces a coolant-temperature failsafe, drives the optional LCD gauge and
serves live state over a Unix socket, plus the helpers its GUI uses.

Layout:

- `src/` — the verified library. Every function carries a Verus contract.
  - `config` — modes, sources, curves, interpolation, validation.
  - `control` — the per-cycle decisions of the daemon (duties, failsafe,
    which writes are needed, what clients are told, gauge frames).
  - `ipc` — socket request handling and client-side interpretation.
  - `hwmon` — sysfs file names, PWM values, parsing of sysfs text.
  - `lcd`, `lcd_worker`, `gauge`, `smoothing` — LCD protocol framing,
    bucket bookkeeping, frame rotation, gauge arithmetic, the LCD thread's
    decisions.
  - `bridge`, `settings` — GUI helpers: names, display strings, curve
    edits, preferences and the autostart entry.
  - `text`, `paths` — string building, trimming, integer parsing, path
    joining.
- `app/` — the daemon binary: file, socket, USB and process I/O, serde
  formats, threads, and the image drawing, around the library. It also
  holds the Rust side of the GUI (`gui_bridge`, `ipc_client`,
  `settings_io`) that the Qt/QML front end binds; the Qt bindings and QML
  themselves are a separate program and are not part of this crate.
- `tests/` — tests of the library.

Temperatures are integer millidegrees Celsius inside the library (the unit
hwmon reports); the config file and the socket keep degrees as floats, and
`app/` converts at that boundary.
