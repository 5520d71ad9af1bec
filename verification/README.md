# tidal-tui

A terminal client for the TIDAL music service. The library in `src/` holds
the client's logic, verified with Verus; `app/` is the program around it.

## Library (`src/`)

- `player/queue.rs` — the playback queue (history, current track, upcoming)
  with its laws: advancing and stepping back keep the playlist in play
  order, stepping back undoes an advance, restarting the cycle keeps every
  entry. Shuffling calls `rand` with a seeded `StdRng` that the caller hands in.
- `player/mpv_handler.rs` — the player's decisions as functions from state
  and command or player event to new state and actions (load, stop, pause,
  volume, crossfade, notices), including the repeat and shuffle behaviour at
  the end of a track.
- `player/repeat.rs`, `player/shuffle.rs`, `tui/screens.rs`, `app.rs` —
  mode cycles, screens and key handling.
- `api/auth.rs` — PKCE pair, redirect URI, authorization URL, Basic
  credentials and the parsing of the login redirect request.
- `api/playback.rs` — manifest decoding, MIME dispatch and DASH `<BaseURL>`
  extraction.
- `api/models.rs`, `api/search.rs`, `api/client.rs` — API models, audio
  quality names, token expiry and the choice of how to obtain a token.
- `api/codec.rs` — the calls into `base64`, `sha2` and `getrandom`.
- `text.rs` — splitting and searching text the way `str` does.

## Program (`app/`)

Terminal interface, HTTP requests, JSON and TOML (de)serialisation, the
player thread driving libmpv, and the command line.
