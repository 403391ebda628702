# ets2_spotify_core

Spotify control from inside Euro Truck Simulator 2 / American Truck
Simulator: automatic play/pause from the truck's electrics and the game's
pause state, an in-game panel (ReShade addon) with playback buttons, saved
playlists and the audio output device, over two backends (Windows media
controls, or a Spotify Connect device of its own).

Layout:

- `src/` — the library, checked by Verus: text handling (`text`), the
  configuration and its editing (`config`), the shared state (`state`), the
  engine's decisions (`engine`), the telemetry reading (`telemetry`), the
  media-session and audio-device rules (`media`, `audio_device`), the
  Connect backend's bookkeeping (`spotify_connect`), what the panel receives
  (`ffi`) and keyboard shortcuts (`hotkeys`).
- `app/` — the host: the `extern "C"` functions called by the addon, the
  engine thread, and the calls into Windows, the telemetry shared memory,
  librespot and the configuration file.
- `tests/` — tests of the library.
