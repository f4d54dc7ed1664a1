# xcb_events

Generates the Rust code of the events of an X protocol module: the types of the
events, their constructors, the enumeration of all of them, and the code that
tells them apart when they come over the wire.

- `src/` is the generator. What each function does is stated in its contract and
  proved by Verus; `src/laws.rs` states what holds of the functions together.
- `app/` joins it to the other parts of a generator (names, structures,
  expressions) and writes what it generates.
- `tests/` runs it on examples.
