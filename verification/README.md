# tune_manager

A library for managing a DJ music collection, with its behaviour stated in
contracts and proved with Verus, and a small command line around it.

- `src/linter/`: lint rules for a track's tag fields, each with the outcome it
  reports stated as a function of the track, the fixes those rules carry and
  what each fix does, and the engine that runs the rules and applies their
  fixes in a bounded loop. `laws.rs` proves properties of the fixes for every
  track: each fix touches only its field, and the trim, smart-quote, key,
  trailing-zero and separator fixes resolve what they are for.
- `src/processing/`: the import pipeline. `coordinator.rs` decides which stage
  runs next for which track, records status reports and detects when a batch
  is complete, with laws on what is dispatched and when; `inputs.rs` builds
  the stages' inputs; `tag_state.rs` keeps the processing state and revision
  history inside a tag's GEOB frames; `media.rs`, `stages.rs`, `error.rs` and
  `lint_fix.rs` hold the stages' own decisions.
- `src/track.rs`, `src/text.rs`, `src/numbers.rs`: the track model and the
  text and number handling the rules are built on.
- `app/`: the `tune-manager` command, which walks a directory, runs the
  stages' file and tag I/O and external tools, and hands the statuses to the
  library.
- `tests/`: tests of the library on concrete values.
