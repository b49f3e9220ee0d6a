# bigtable_rs

A client for Google Bigtable's query service that compiles queries once and runs them often.

`src/` is the verified library. It decides everything that can be decided without waiting:
which statement a query or a token belongs to, when a statement is compiled, when its plan is
renewed, what an attempt sends, and what follows from a refusal. Its functions take the time and
the outcome of the last action as plain values. `src/laws.rs` holds the laws that relate several
of them.

`app/` is the client around it: the gRPC channel, credentials, timers, locks, and the conversion
between the messages of the wire and those of the library.

`tests/` runs the library against a server in memory, on a clock that each scenario moves.

Trusted, not proved:

- the contracts of the functions marked `external_body` in `src/plan.rs` (`arc_swap`),
  `src/metadata.rs` and `src/client.rs` (`tonic`) and `src/cache.rs` (`Arc::clone`);
- two names that these contracts speak of: `cell_contents`, what a plan cell holds, and
  `valid_uri`, the verdict of the parser of URIs;
- the opaque types that are carried through unread: `PlanCell`, which holds an
  `arc_swap::ArcSwapOption`, and in `src/error.rs` `tonic::Status`, `tonic::transport::Error`,
  `tonic::metadata::errors::InvalidMetadataValue`, `gcp_auth::Error` and `std::io::Error`.
