# tuxwire

A terminal RSS reader for people who take notes while they read: feeds are
grouped by topic in a sidebar, articles can be skipped, saved and annotated,
and every saved article can be exported into one Markdown file.

## Layout

- `src/` — the library, verified with Verus. The reader's decisions live
  here with their contracts: validating `sources.toml` blocks and
  resolving them into fetchers, mapping a parsed feed onto articles, the
  Markdown export, where config and data files live, the schema
  migrations still to run, reading `#rrggbb` colors, and the whole browsing
  state machine of the terminal UI (`ui::state`): what each key does, which
  popup is open and where it goes, and what the program has to do next (a
  `Command`).
  The laws the library keeps are public proof functions beside the code
  they are about (`lemma_*`).
- `app/` — the program around it: reading and writing files, SQLite,
  HTTP, the clock, and drawing with ratatui. It runs the UI loop, carries out each `Command` and
  reports the outcome back to the state machine.
- `tests/` — tests of the library through its public API.

The library calls `chrono` (date rendering) and `feed-rs` (feed parsing) through a few trusted wrappers whose contracts
are documented where they are declared.
