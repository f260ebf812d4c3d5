# smtc2web

The core of smtc2web, a tool that shows the song now playing in an overlay
page for streaming software, written in Verus.

- `src/` is the verified library: the `mm:ss` clock text, the settings and
  the git theme records, the configuration-file watcher's decisions, the
  `/api/now` fingerprint and response cache, the tray menu, the update
  check results and the start-up decisions. Each public function carries a
  contract; the `law_*` proof functions state what holds across functions.
- `app/` is the program around it: reading and writing the TOML settings
  file, watching it, the local web server, the single-instance lock and the
  command handlers.
- `tests/` runs the library on concrete values.

The git theme records are a `GitThemes`: a list of folder-name/record
pairs in which no folder name occurs twice (a type invariant), viewed as a
map. A `std::collections::HashMap` with `String` keys would let Verus check
the calls but prove nothing about what they do, so the records are kept in
a verified list instead.
