# trustlink

The storage layer, identifier scheme and event catalogue of the TrustLink
attestation contract, with their contracts proved.

- `src/types.rs` — addresses, attestation records, status at a given time,
  identifiers spelled from a SHA-256 digest (hashed by the Soroban host).
- `src/ids.rs` — attestation, bridge, request and multi-signature IDs: the
  XDR encodings of the identifying fields (by the Soroban host) in their
  fixed order, with the "req:" and "multisig:" prefixes, hashed and spelled.
- `src/storage.rs` — the storage key layout, the tier of each key, and every storage helper's logic:
  given the ledger entries it read, what it answers or writes back (admin
  council membership, attestation indexes, the claim type registry, pending
  requests, counters, limits, entry lifetimes, pagination).
- `src/events.rs` — the topics and payload of every event.
- `src/laws.rs` — properties across calls: adding and removing admins,
  append-only lists, the claim type registry invariant, pagination, counter
  round trips, attestation status, identifier structure, distinct topics.
- `app/` — the same API over a Soroban `Env`: it reads and writes ledger
  entries in the tier the library assigns, publishes events, and leaves
  every decision to the library.
