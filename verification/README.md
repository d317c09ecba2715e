# squealy

A library that builds SQL queries as typed Rust values, with proofs in Verus that the SQL text and the
bound parameters are those of the query.

- `src/` is the library. Every function in it is verified but for two, whose contracts are trusted:
  `String::push` of the standard library (in `text`), and `share_bytes` (in `native`), which clones a
  `bytes::Bytes`. The types `bytes::Bytes`, `uuid::Uuid`, `time::OffsetDateTime` and
  `std::time::SystemTime` are opaque.
- `app/` is ordinary Rust around it: row streams, prepared statements, transactions and the connections
  that schemas are managed through.
- `tests/` runs the library from outside.

A query goes through three forms. The builders (`expr`, `projection`, `query`) keep it as a value whose
type records its sources, its parameters and its rows. Lowering turns it into a tree (`tree`). Rendering
writes the tree in a dialect (`render`), as `grammar` and `tokens` say. View bodies take the last step
differently: `view` turns the tree into a neutral model with its literals inlined.

Projections, joined sources, supplied parameters and assigned columns are tuples of up to thirty-two
elements; grouping keys, conditions and orderings of up to sixteen; the target of an upsert of up to
four.
