# what_n_when

Verified core of the What-N-When desktop widget, a small always-on-desktop
window showing a web calendar.

- `src/` — the library, verified with Verus:
  - `options.rs` — options, settings, defaults, the desktop toggle action;
  - `state.rs` — the listener / widget state and its mathematical view;
  - `widget.rs` — show / hide / transparency state machine and fades;
  - `desktop.rs` — desktop click classification and double-click detection;
  - `commands.rs` — the rules of the options commands, start-up and close;
  - `laws.rs` — properties relating several operations.
- `tests/` — tests on concrete values.
- `app/` — the Tauri application: windows, settings file, registry and the
  Win32 mouse hook, carrying out what the library decides.
