# mgba

Verified core of a safe Rust wrapper around libmgba, a Game Boy Advance
emulator.

- `src/key.rs`: the ten GBA buttons, their button order, names and bitmasks,
  with proofs that each mask is a single bit and that masks of different
  keys are disjoint.
- `src/error.rs`: the error type and its messages.
- `src/lifecycle.rs`: the checks on port names and ROM paths, entry lookup
  in the core's function table, the loaded-ROM state, and how many audio
  pairs a read may take.
- `src/startup.rs`: creating a core as a state machine that says, after
  each call into libmgba, what to do next and what to release on failure.
- `app/lib.rs`: the `Core` handle that owns the raw libmgba core and makes
  the calls, driven by the library above.
