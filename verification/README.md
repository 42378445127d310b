# agent-sdk-core records

Durable and observable records of an agent SDK (events, journals, effects, context
projections, structured output, stream rules, output delivery, telemetry and feature
evidence) with their validation rules, verified with Verus.

- `src/` is the verified library. Each module holds the records of one feature, their
  constructors and checks, and the spec functions their contracts are written in.
  `text.rs` holds verified string building blocks, `hashing.rs` the SHA-256 digests
  taken from the `sha2` crate.
- `app/` holds what needs `serde`: serializable copies of the records whose JSON encoding
  is hashed or inspected, and the functions that encode them before calling the library.
- `tests/` exercises the library on concrete values.
