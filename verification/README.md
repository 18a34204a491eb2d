# kucheat

Verified core of Kucheat, a CHZZK live-stream notification tray app for
Linux, written in Verus.

- `src/` — the verified library:
  - `config` — the configuration model; adding and removing channels.
  - `state` — per-channel state after a check, and the channel-state map.
  - `api` — the CHZZK API requests and the steps of a channel lookup and a
    live check, driven by the replies.
  - `monitor` — the daemon's decisions: config changes, live transitions and
    notifications.
  - `notification` — notification texts and action-button targets.
  - `tray` — tray menu, tooltip and icon pixmap.
  - `status` — output of the `list` and `status` commands.
  - `autolaunch` — the auto-start entry.
  - `text` — string building with exact statements.
- `app/` — the program: CLI, files, HTTP, D-Bus notifications and the tray
  service, driving the library.
- `tests/` — tests of the library.
