# examine

The logic of a system information viewer, verified with Verus: it turns the
os-release file and the output of `lscpu`, `lspci` and `lsusb` into pages of
labelled rows, and keeps the state of the application window (navigation,
context drawer, window title).

- `src/text.rs` — line splitting, `split_once`, prefix tests and UTF-8 decoding, with their specifications.
- `src/rows.rs` — the rows that pages show.
- `src/release.rs` — the distribution page, built on the `etc-os-release` parser (trusted items) and `itertools`.
- `src/pages.rs` — the processor and device pages.
- `src/model.rs` — pages, menu, messages and the application state with its update function.
- `src/laws.rs` — properties that span functions.
- `app/main.rs` — a console front end: runs the commands, reads files, prints the pages, opens URLs.
