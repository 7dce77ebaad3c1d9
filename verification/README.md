# mouser

A remapper for Logitech mice (HID++ gesture button, side buttons,
horizontal scroll, DPI and Smart Shift), written as a Verus-verified
library with a thin Linux daemon around it.

## Layout

- `src/` — the verified library. Every public function carries a
  `requires`/`ensures` contract proved by Verus:
  - `config` — profiles, mappings, settings, migration, profile lookup by
    application;
  - `engine`, `daemon` — hook bindings, scroll accumulation with
    cooldowns, profile switching, and the handling of interface requests;
  - `mouse_hook` — gesture detection, per-event hook decisions (evdev and
    Windows), blocked events, handler registry, mouse selection;
  - `hid_gesture` — HID++ 2.0 report parsing and building, control
    discovery, diverting, the report state machine;
  - `key_simulator` — action dispatch and the key tables of each platform;
  - `actions`, `devices`, `device_layouts`, `app_catalog`, `locale` —
    the catalogues and their lookups;
  - `logging`, `startup`, `app_detector`, `cli`, `ui`, `settings_window`,
    `tray` — formats, decisions and texts behind the program's I/O;
  - `text` — verified string helpers.
- `tests/` — unit and scenario tests of the library.
- `app/` — the daemon: configuration files (serde), logging, the evdev
  hook and uinput injection, the hidapi listener, foreground-application
  polling and autostart.
