# grove_core

The decision logic of the Grove coordinator, verified with Verus: which beads may be
dispatched and in what order, file-reservation conflicts, the leader lease, reaction
rules and escalation tiers, run and session lifecycle transitions, the mirror outbox,
playbook curation, and the text encodings and row decoders of the coordinator's store.

- `src/` is the verified library. Each module states its contracts over spec functions
  and proves the laws that relate its operations (`pub proof fn lemma_*`).
- `tests/` exercises the library on concrete values.
- `app/` is the unverified shell: the SQLite store, JSON wire forms, the driver of the
  dispatch loop (which asks a host, through the `DispatchHost` trait, to poll the issue
  tracker, wait and launch workers; no host is provided here), the Ctrl-C hook and the
  floating-point scoring.
