# transtypro

A local-first dictation assistant: push a shortcut, speak, and the transcript
(cleaned up by an AI provider if you like) is pasted into the application you
were using. The rules of the application are a Rust library verified with
Verus; a thin desktop shell runs them.

## Layout

- `src/` — the verified library.
  - `db/` — the persisted tables as values: settings, dictation modes,
    vocabulary, history and AI providers, with unique primary keys, the
    listing order of each table, and read-after-write laws (`table.rs`).
  - `services/` — the rules: privacy policy (local-only mode fails closed),
    status summary, clean-up planning, local transcription checks, the
    push-to-talk state machine and pipeline, the laws of the whisper.cpp
    transcript clean-up (`transcript.rs`), shortcut validation and dispatch,
    retention, diagnostics, insertion outcomes.
  - `time.rs` — reading stored timestamps as instants.
  - `text.rs` — string helpers with specifications (trimming, searching,
    decimal rendering, lexicographic order).
  - `clock.rs` — the wall clock (chrono) and fresh identifiers (uuid).
- `tests/` — tests of the library on concrete values.
- `app/` — the Tauri shell: IPC commands, SQLite storage (rusqlite), audio
  capture (cpal, hound), HTTP (ureq), the OS keychain (keyring), clipboard
  and key simulation (arboard, enigo), the global shortcut and windows. It
  hands the library plain values and performs what the library decides.

## Verifying

Verus checks `src/lib.rs` and every module it reaches; the tests in
`tests/` run as ordinary Rust tests against the compiled library.
