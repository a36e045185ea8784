# zerofs

Key layout, durable records and authority rules of a log-structured network filesystem,
written in Verus: every function states what it returns, and the statements are proved.

- `src/fs/key_codec.rs`, `src/fs/key_laws.rs`: the keys of every row, and what makes them
  distinct, ordered and reserved.
- `src/fs/errors.rs`, `src/fs/inode.rs`, `src/fs/ops/io.rs`, `src/fs/handle.rs`,
  `src/fs/metrics.rs`: errors, writes, reads, trims and allocations, open handles, the
  reclaim of orphans, and what of it is counted.
- `src/fs/envelope.rs`: the checksummed envelope that binds a stored record to its key.
- `src/fs/workspace_operation`: the ledger of operations.
- `src/fs/workspace_genesis`, `src/fs/workspace_barrier`: the creation of workspaces, and
  the barriers that advance their heads.
- `src/fs/export_authority`: who may change an export, and how a change is fenced.
- `src/cli`, `src/failpoints.rs`, `src/fault_store.rs`, `src/replication.rs`: password
  rules, the listing of keys, points and stores that fail on purpose, and provenance
  stamps.
- `src/outside.rs`: every call into another crate, with what is taken for granted of it.
- `app/`: the same stores over a database and an object store. It reads and writes; the
  library decides.
