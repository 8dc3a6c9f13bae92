# dsh-desktop

A desktop shell that runs the DeepSeek Harness engine (`dsh web`) as a managed
child process and embeds its Web UI in a native window. The rules of the shell
are a library verified with Verus; the application around it does the I/O.

## Layout

- `src/` is the verified library.
  - `engine.rs`: the engine manager. Start, stop, setup, readiness, exit and log
    as decisions on events, over a model of the whole state.
  - `state.rs`: the phases of the engine, what the shell shows of them, and
    where the window goes when they change.
  - `plan.rs`, `source.rs`: which engine is run, and how.
  - `setup.rs`: the stages that prepare a checkout.
  - `process.rs`: the commands the shell runs, and what it makes of them.
  - `local_url.rs`, `ansi.rs`, `text.rs`: reading the engine's output.
  - `webview.rs`, `menu.rs`, `settings.rs`: the window, the menu and the settings.
  - `laws.rs`: what holds of the shell as a whole, for every sequence of events.
- `app/` is the Tauri application: processes, threads, files, events, window.
- `tests/` runs the library on concrete values.

## What is trusted

- `String::push` appends one character (`src/text.rs`).
- `url::Url::parse` is a function of its input, and parses the engine's address
  on every port and the two origins of the embedded assets (`src/webview.rs`).
