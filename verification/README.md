# youtube_desktop

The state and rules of a desktop YouTube client (tabs, play queue, history,
bookmarks, profiles, fullscreen and titlebar), verified with Verus.

- `src/` — the library. `state.rs` holds `TabsState` and the decision part of
  every command; `history.rs`, `queue.rs`, `tabs.rs`, `profiles.rs`,
  `display.rs`, `media.rs` and `scripts.rs` hold the rules they use, with the
  laws proved as `law_*` proof functions; `text.rs` has the string helpers;
  `clock.rs` reads the wall clock.
- `tests/` — tests on concrete values.
- `app/` — the Tauri shell: windows, webviews, tray, shortcuts, files and
  events. It asks the library what to do and performs it.
