# thndrs_ui

State machines and text layout of a terminal chat client, written in Verus
with their behaviour stated as contracts and proved.

- `src/` — the verified library: input editing and history, scroll state,
  slash-command parsing, the help, settings and file-browser screens, the
  workspace file tree, fuzzy file finding (scored by `nucleo-matcher` behind
  one trusted wrapper), stable sorting, text wrapping and truncation, the
  task-title rule, snapshot naming, the preview and prompt cuts of a file, its syntax highlighting (syntect
  behind trusted wrappers), the command batching,
  and one step of the whole app across its screens (`app_step`). `src/laws.rs` holds the properties that
  span several calls (undo of an edit, round trips, periods of mode cycles,
  bounds that every operation keeps).
- `tests/` — concrete scenarios for each screen and each law.
- `app/` — terminal plumbing: key events mapped to screen keys, the workspace
  walked from disk with `ignore` (git ignore rules apply), files read,
  snapshots written, and the values kept as floats.
