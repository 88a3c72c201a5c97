# laplace_interfaces

Shared domain contracts of the Laplace platform, written in Verus: the types,
classifications, error taxonomies and wire protocol that the kernel, the SDK and the
simulation engine agree on, each with a machine-checked contract.

## Layout

- `src/` — the verified library.
  - `domain/` — request contexts, tenant tiers, scheduling priorities, entropy seeds,
    the Kraken load-testing model (chaos schedules, ramp-up profiles, scenario step
    checks), memory, resource, scheduler, time and tracing types, transport data types,
    and TUI capabilities.
  - `error/` — the unified FFI error codes, tenant errors, transport errors and
    Kraken errors.
  - `rpc.rs` — framing of the QUIC RPC protocol: encoders and incremental decoders of
    request and response frames, with round-trip laws.
  - `text.rs` — decimal and hexadecimal rendering used by every `to_display_string`.
  - `clock.rs` — wall-clock readings.
- `tests/` — tests of the library on concrete values.
- `app/` — what Verus does not take: serde and `std::error::Error` forms of the
  library's types, statistics and scenario scripts that hold floating-point values,
  asynchronous service traits, OS socket binding, and the QUIC client and server, which
  move the library's verified frames over the network.

Displayed text is produced by `to_display_string` methods, whose results are specified
character by character.
