# bear_bridge_engine

Non-equi joins for data frames: joins on `>`, `<`, `>=`, `<=`, `==`, `!=` and on
`|a - b| < threshold` (plain or as a time delta), run by the Polars engine and
offered to Python.

Layout:

- `src/` is the verified library. It parses operators, time units and join
  kinds, turns conditions into predicates and then into Polars expressions,
  plans and runs joins, validates conditions against the frames' columns while
  collecting every error (with their JSON form and messages), converts binary64
  thresholds to integers as `as` does, and streams a join over chunks of the
  left frame.
- `app/` is the Python extension around it: the `pyo3` module, the Arrow/Polars
  exchange through the C data interface, the float literals of thresholds, the
  printed predicates, and the engine's panics on predicates it cannot build.
- `tests/` exercises the library.
