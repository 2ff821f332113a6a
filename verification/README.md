# codexmeter

The verified core of a desktop monitor for Codex quota. The monitor starts the
local `codex app-server --stdio`, completes its JSON-RPC handshake, reads quota
snapshots and shows them in a tray and two web views.

## Layout

- `src/` — the library, verified with Verus:
  - `text.rs`: Unicode white space, trimming, substring search, UTF-8 lengths,
    line splitting.
  - `models.rs`: settings and connection types; settings normalization and its
    laws (bounds, idempotence).
  - `settings.rs`: the settings store, which only ever holds normalized settings.
  - `launcher.rs`: where the Codex executable is looked for and how it is started;
    paths found on the machine are carried in the host's own path type, so names
    that are not valid Unicode are kept as they are.
  - `ui.rs`: interface language, tray menu texts and commands, tray tooltip,
    the macOS menu-bar title (`5h 76% · W 43%`), widget placement.
  - `service.rs`: the App Server session as a state machine (`Worker::step`),
    stated as spec functions and implemented against them; it reads each JSON
    line of the App Server through `serde_json` and names the messages it sends.
  - `worker_laws.rs`: what every step and every run of the worker keeps.
- `tests/` — tests of the library on concrete values.
- `app/` — the desktop shell (Tauri, Tokio, serde): file and process I/O, the
  event loop that runs the worker, windows and tray.
