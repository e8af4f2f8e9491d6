# brutal

A fixed-rate congestion controller for QUIC, verified with Verus, with parameters that can
be set per remote address while a connection is up.

- `src/` is the verified library: configuration and congestion state (`brutal_core`), packet
  counts of the last few seconds (`slots`), waiting parameters (`control`), the registry of
  remote addresses on top of `dashmap` (`registry`), the controller that ties them together
  (`controller`), doubles by bit pattern (`double`), time (`time`), and what holds of the
  whole (`laws`).
- `app/` is ordinary Rust around it: the two double-precision formulas, the process-wide
  registry, and the `Controller` interface of `quinn-proto-jls`.
- `tests/` runs the library with real double-precision arithmetic.
