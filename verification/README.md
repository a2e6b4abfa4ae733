# grok_privacy

The verified core of a privacy-hardened coding-agent shell: every passive
upload, telemetry, remote-control, cloud-sync and self-update entry point is an
inert facade whose contract states that it refuses (or does nothing), and the
small pieces of local logic that remain — extension blocking, version
sanitising, object and sidecar naming, threshold normalisation, hashing,
changelog bullets, traceparent encoding and the choice of span parent, the
gateway state machine — are
proved against specifications written over `Seq`, `Set` and plain values.

Layout:

- `src/` — the library, verified with Verus. Outside crates (`sha2`,
  `blake3`, `uuid`, `fastrace`, `serde_json`, `tokio`, `tracing`,
  `agent-client-protocol`) are reached only through small trusted wrappers
  whose doc comments say what is assumed of them.
- `tests/` — ordinary Rust tests of the library.
- `app/` — runtime glue that Verus does not see: file reads, printing, async
  locking and channels, serde shapes, impls of outside traits, and the
  floating-point embedding scaling.
