# pomodorust

A Pomodoro timer for the Ubuntu system tray, written as a Verus-verified
library (`src/`) and a thin GTK program around it (`app/`).

## Layout

- `src/timer.rs` — the timer's state machine. Each operation is stated as a
  function of the state, the preset and the time (`start_spec`, `tick_spec`,
  …); the `..._at` methods take the time as an argument and meet those
  functions exactly, the others read the monotonic clock first.
- `src/timer_laws.rs` — properties across operations: the long-break
  cadence, breaks waiting for a confirmation, pause/resume losing no time,
  the time left never growing.
- `src/config.rs` — presets and the configuration: validation, lookup,
  saving, activating and deleting presets, with their invariants.
- `src/actions.rs` — changes of preset that also reset the timer.
- `src/sound.rs` — the notification sound and what is played for it.
- `src/display.rs` — texts for the tray, its menu, the toast and the
  notifications (`mm:ss` formatting included).
- `src/menu.rs` — identifiers of the tray menu's entries, the preset list,
  and reading a clicked entry back.
- `src/osd.rs` — the decisions of the break toast.
- `src/autostart.rs` — the XDG autostart entry and when to write or delete it.
- `src/icon.rs` — decoding the application's icon (through the `image` crate).
- `src/text.rs` — small string operations used above.
- `app/` — `main`, GTK windows, tray icon, disk and audio I/O, sound
  synthesis and icon drawing (floating point).
- `tests/` — tests of the library on concrete values.

Times are nanoseconds on the timer's own clock, counted from its creation.

## Dependencies

`app/` plays sounds with `rodio` and sends desktop notifications with
`notify-rust`. Neither is listed in `Cargo.toml`: with their dependencies for
every platform (the Windows crates among them) they bring several hundred
MiB of sources, and `rodio` needs the ALSA system library to build. Add them to `[dependencies]` to build the
application:

```toml
notify-rust = "4"
rodio = "0.19"
```
