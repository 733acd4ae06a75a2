# ascope

A terminal workspace inspector: a directory tree with sizes, previews,
tabs, bookmarks, fuzzy and content search, a command palette and Lua
plugins, plus a `--stats` mode that reports disk usage.

## Layout

- `src/` is the library, verified with Verus. It holds the state of a session
  and every decision the interface takes: listing, sorting and filtering the
  tree, what a key does in each view, tabs, bookmarks and recent directories,
  the batch file operations as plans, the search overlay and the command
  palette, the workspace command detection, the size aggregation of a scan,
  the text and image preview framing, and what each part of the screen shows.
  Calls into `nucleo`, `serde_json`, `base64`, `chrono` and `ratatui`'s layout
  solver, and a few std text functions (`String` from characters, lower and
  upper case, `char::is_alphanumeric`), go through small trusted wrappers.
  Their contracts state what the outside code gives (base64's text, the
  layout's geometry, the shape of a local timestamp) or name a result that
  depends on the arguments alone (fuzzy scores, parsed JSON fields, case
  mapping).
- `app/` is the program around it: terminal setup and the event loop, reading
  and writing files, `git2`, `bat`, `image`, `rg`, the clipboard, the Lua
  plugin host (`mlua`), and drawing with `ratatui`.
- `tests/` exercises the library on concrete values.
