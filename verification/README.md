# clipbuf

clipbuf keeps the last N texts copied in other applications, warns about what is hard to see in
them (formatting, edge whitespace, tabs, platform-dependent characters, control characters,
mixed line endings, encoding oddities) and writes an item back to the clipboard with the chosen
clean-ups applied. The stored item itself is never altered.

## Layout

- `src/` is the library, verified with Verus: text analysis (`analysis`), transfer
  transformations (`transform`), the in-memory item buffer (`buffer`), settings rules
  (`settings`), the clipboard port and its format rules (`clipboard`), the shared model
  (`model`), and the runtime's decisions (`app`: the capture step, the frontend operations,
  hotkey replacement, which windows come back with the main one).
- `tests/` runs the library on concrete cases.
- `app/` is the Tauri desktop runtime around the library: the OS clipboard adapter, the
  settings file, the capture thread, commands, events, tray and windows.
