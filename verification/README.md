# bytewarden

A keyboard- and mouse-driven terminal client for Bitwarden, built on the
official `bw` command-line tool.

## Layout

- `src/` — the verified library (Verus). It holds the whole state of the
  client and the rules that change it:
  - `app.rs` — the application state, its operations, and how the outcome
    of each `bw` call is taken in (command log, feedback, vault list);
  - `events.rs` — the key and mouse map: which command an event means, and
    what each command does to the state;
  - `search.rs` — the item filters, fuzzy matching and sorting of the list;
  - `fields.rs` — editable text fields, the edit and create forms, and the
    detail view with its masking of secrets;
  - `client.rs` — the `bw` command lines and the reading of their output;
  - `json.rs` — the item JSON written for `bw create item`; a JSON value
    model (read and written through `serde_json`) and the patch of an
    item's JSON for `bw edit item`;
  - `config.rs`, `theme.rs` — reading and writing the settings file;
  - `view.rs` — the texts the screens show (hints, counters, spinner,
    cursor splits, masks) and the logo: the FIGlet wordmark on the
    starfield;
  - `text.rs`, `base64.rs`, `model.rs` — text helpers, Base64, item data.
- `app/` — the program around it: running `bw`, the clipboard, the settings
  file, the terminal's events, and the drawing with Ratatui, including the
  panel layout (Ratatui's `Layout`) and so the screen areas that mouse
  clicks are matched against.
- `tests/` — tests of the library.
