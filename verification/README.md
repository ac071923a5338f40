# forza_rich_presence

The decisions behind a Discord Rich Presence companion for Forza Horizon 4 and 5,
verified with Verus.

- `src/` is the verified library:
  - `modules` — the supported games (process name, Discord application, store
    package, car class names);
  - `telemetry` — the layout of the game's "Data Out" packets and the lifecycle of
    the listener;
  - `car_database` — car names by ordinal;
  - `discord` — the presence shown for a telemetry sample and an Xbox Live state,
    and what is remembered between updates;
  - `sockets`, `paths` — where Discord IPC sockets are looked for, how they are
    ordered as `Path` orders them, and how clients are connected to them;
  - `monitor` — the game process monitor, status messages, tray menu actions and
    the loopback exemption command;
  - `text` — trimming, prefixes and decimal formatting on characters.
- `app/` is the program around it: the Tauri window and tray, UDP sockets, threads,
  the file system and the Discord IPC connections.
- `tests/` runs the library on concrete inputs.
