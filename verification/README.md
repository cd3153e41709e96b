# flowcut

The editing core of the FlowCut video editor, written in Verus: the project
model (tracks, clips, filters, media, markers), the timeline edits, the
undo/redo history, export job tracking and the engine status, each with a
contract that Verus proves.

Layout:

- `src/` — the verified library.
  - `project.rs`, `utils.rs`, `engine.rs`, `export.rs` — the state types and
    their operations (recent projects, undo history, engine status, export
    jobs) with the laws that relate them.
  - `commands/` — one function per editor command: argument checks, the
    edit of the open project and the undo record it leaves, which holds the
    project before and after the edit so that undo and redo can put either
    back.
  - `ids.rs` — the calls into `uuid` and `chrono`; `json.rs`, `text.rs`,
    `search.rs`, `deep_copy.rs` — shared helpers.
- `tests/` — tests of the library on concrete values.
- `app/` — the unverified shell: state behind locks, conversions to the
  front end's units (seconds, frames per second as floats), serde forms of
  the values, and project files on disk.

Units inside the library: times in microseconds, instants in milliseconds
since the Unix epoch, rates (speed, volume, opacity, frame rate, aspect
ratio) in thousandths, UUIDs as their 128-bit values.
