# keystroke_visualizer

A local tool that records aggregate keyboard activity per session (how often
each key went down, and how many presses fell in each minute) and shows it in
a browser report served on `127.0.0.1`.

The crate is split in two:

- `src/` is the verified library. Every function there carries a contract that
  Verus proves:
  - `text`: character-wise equality, prefixes and the code-point order of text.
  - `table`: `CountTable`, an ordered map from text keys to counts kept as sorted
    entries, and `KeySet`, the set of keys held down. They stand where a
    `BTreeMap<String, u64>` and a `HashSet<String>` would: vstd's contracts for
    those collections hold only for keys known to obey its key model
    (`obeys_key_model`, `key_obeys_cmp_spec`), which nothing establishes for
    `String` short of an assumption, so their contracts would give a proof
    nothing to work with. The library keeps sorted vectors instead, whose order
    (`text_lt`), lookups and updates are proved here.
  - `model`: layouts, statuses, timestamps and the stored session records; the
    clock and RFC 3339 text come from chrono through small trusted wrappers.
  - `collector`: counting presses (a held key is counted once), flushes, and the
    answers of the collector's control channel.
  - `session`: how a stored session changes (collector attached, counts flushed,
    stopped, interrupted, failed) and the choices made for sessions whose
    collector is gone.
  - `report`, `api`: the on-screen keyboard, friendly key names, key-usage order
    and the assembly of a session report from its counts.
  - `assets`, `web`: asset names and content types, token checks, redirects and
    the live view's steps.
  - `cli`: the command line as plain values.
- `app/` is the program around it: the commands `start`, `status`, `live`,
  `stop`, `report`, `list` and `doctor`, argument parsing (clap), SQLite storage
  (rusqlite), the keyboard hook (rdev), the collector's threads and TCP control
  channel, the axum web server and the floating-point ratios of the report.

The web server asks for the one-time token on every page and API route;
only the built static assets (scripts, styles, images), which hold no session
data, are served to the page without it.

Verus checks `src/`; `tests/` exercises the
library on concrete values.
