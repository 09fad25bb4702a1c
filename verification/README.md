# cc_switch

The decisions behind a desktop switcher for AI providers, written in Rust and proved with Verus.

- `src/capture.rs` and its neighbours assemble one HTTP exchange in memory and hand it out as a
  single record. An event stream is never written raw: an aggregator's answer stands in its place.
- `src/database/` holds the procedures on the configuration database and the log database. Each is
  a run: it names the action that is due, takes in the reply, and goes on or ends.
- The files whose names end in `_laws.rs`, and the ends of the other database modules, state what
  holds of all captures, of all runs, and of one start after another.
- `app/` opens the files and connections, performs the actions and hands back the replies.
- `tests/` runs the library on concrete values.

Calls into other crates (`http`, `url`, `uuid`, `chrono`, `serde_json`) stand behind small wrappers
whose doc comments say what is claimed of them.
