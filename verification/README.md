# Error types and scheduler descriptions

The error types of an entity component system and the descriptions its
scheduler gives of workloads, verified with Verus.

- `src/error.rs`: every error type; `debug_string` and `to_string` give its
  message, stated exactly in each contract by `debug_text`.
- `src/scheduler/info.rs`: workload, batch, system and type descriptions;
  equality of type descriptions and the `{:?}` text of a type description.
- `src/ids.rs`: entity, type and storage identifiers and their text.
- `src/text.rs`: decimal numbers, and the quoted text of a string.
- `app/lib.rs`: `Debug`, `Display` and `std::error::Error` through `Report`,
  and custom errors boxed as `Box<dyn Error + Send>`.
