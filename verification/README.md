# oneil

A verified parser for the Oneil modelling language, with the records of its
Python call cache.

* `src/` is the library, checked by Verus. Each grammar rule has a
  specification (a `spec fn` over the characters of the source) and a parser
  whose contract says that it returns exactly what the specification gives.
  The tokenizer lives in `src/token/`, the syntax tree and its models in
  `src/ast.rs`, error messages and hints in `src/message.rs` and
  `src/context.rs`, and the cache records and field rules in `src/cache.rs`
  and `src/cache_file.rs`.
* `tests/` runs the library on concrete inputs.
* `app/` holds what talks to the outside world: JSON cache files, serde forms
  of the library's records, and reading Python sources for their hash.
