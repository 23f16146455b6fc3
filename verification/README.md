# jin10x

Offline source-fact layer for the jin10 data source (`source_id = jin10`), verified
with Verus. No network, no credentials, no storage.

- `src/error.rs` — error classes (`Jin10ErrorKind`) and `Jin10Error`, whose view is its
  class and detail text.
- `src/text.rs` — character helpers (Unicode white space and blank texts, exact and
  ASCII-case-insensitive comparison, substring search, decimal text).
- `src/value.rs` — strict `YYYY-MM-DD` dates, business periods, frequencies, units.
- `src/value/envelope.rs` — the eight data kinds, times of day, timestamps and their
  order, the planned interface table S01–S08, importance 1–5.
- `src/value/number.rs` — source numbers (IEEE 754 doubles held by their bit pattern):
  finiteness and double equality.
- `src/value/payload.rs` — envelopes, the three fixed payloads and their checks.
- `src/value/mapping.rs` — write sovereignty, macro mapping proposals and the
  out-of-order write decision.
- `src/parse.rs` — atomic conversion of a decoded envelope document.
- `app/lib.rs` — JSON decoding with serde into the library's raw values
  (`parse_jin10_envelopes`), and display forms with `thiserror`.

Every contract is stated over spec functions in the same files; the laws
(round trips, timestamp order, document soundness and atomicity, payload and
envelope conversion, cross-domain refusals, no silent overwrite, refusal of broken
identities) are public proof functions next to them. Error details name the check
that failed and where, never a value of the input.
