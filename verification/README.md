# spatial_browser

The verified core of a spatial web browser: web pages float as cards on a
pannable, zoomable canvas, with bookmarks, history, downloads, workspaces,
userscripts and userstyles, content filtering and a local password vault.

- `src/` is the library, written and proved with Verus. Public functions
  state what they return or change over mathematical models
  (`Seq`, `Map`, spec functions and views of the data types); the `law_*`
  proof functions state properties that hold across calls (what a lookup
  gives back after a write, what every operation keeps, what survives a
  round trip). Calls into outside crates (`aes-gcm`, `argon2`, `rand`, `csv`,
  `serde_json`, `adblock`, `zeroize`) and into a few std functions sit
  behind small wrappers whose contracts name or describe what those
  functions return. Where the answer comes from chance or the clock (random
  salts, nonces and ids, the current time), a contract states what holds of
  every outcome rather than the value itself.
- `app/` is the program around it: the config directory, reading and writing
  the JSON and encrypted files, reading the userscript and userstyle
  folders and the filter lists, and the single-instance socket.
- `tests/` runs the library on concrete values.
