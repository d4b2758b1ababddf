# csv_cat

CSV reading and writing on top of the `csv` crate.

- `src/` is the verified library (Verus): reader and writer configuration,
  `Row` and its accessors, collecting the records a `csv::Reader` yields into
  rows, assembling the output of a `csv::Writer`, and the error type.
  `src/bindings.rs` holds the trusted declarations of the `csv` and std items
  the library calls, each with the contract it is taken on.
- `app/` is the effectful front end: file access, the `comp_cat_rs` effects
  (`Io`, `Resource`, `Stream`), `Display`/`Error` for the error type, and
  serde deserialization of rows.
- `tests/` runs the library against the real `csv` crate.
