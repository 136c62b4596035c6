# crabgrab (macOS capturable content)

The verified part of the macOS capturable-content layer of a screen capturing crate.

- `src/level.rs`: window levels, the thresholds the window server assigns to them, and the
  classification of a window layer into a level (with its laws).
- `src/filter.rs`: content filters (level range, excluded bundle ids, excluded window ids),
  the decision whether a window is kept, the filter builders and their laws.
- `src/window.rs`: windows, displays and applications as plain values; the window extension
  trait (layer, level, id, lookup by id).
- `src/content.rs`: the listing of capturable content built from the window server's reply.
- `src/text.rs`, `src/error.rs`: lower-casing and decimal text, the error type.
- `app/lib.rs`: the calls into the window server through `cidre` (not verified).
