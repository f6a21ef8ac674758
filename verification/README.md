# Flow

The decisions of the Flow dictation app, verified with Verus: what a hotkey starts, what becomes
of a recording, what a speech model made up, which shortcuts are registered, how the local speech
server is brought up, what the user is told of permissions.

- `src/` is the library. Each module states in its contracts what it decides, over plain values.
  What has to wait for the outside world is a step from a phase and an event to the next phase and
  the effects to carry out. The functions named `law_*` prove what holds of several steps or calls.
- `app/` carries the effects out: microphone, windows, processes, files.
- `tests/` runs the library on concrete values.

Trusted, and stated beside each item: `str::to_lowercase` and `char::to_uppercase` in
`src/case.rs`, `String::push` in `src/text.rs`, and the reading of JSON with `serde_json` in
`src/models.rs`.
