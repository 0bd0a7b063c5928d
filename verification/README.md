# multiraft

The verified core of a runtime that hosts many Raft groups on each node. It holds the decisions:
what a group looks like from outside, whether a control request may go ahead, how a snapshot is
captured, stored, activated, loaded and installed, when the log may be compacted, and in what order
a node stops. Input and output belong to the caller.

Where decisions and input or output alternate, an operation is a value that asks for one thing at a
time: `Turn::Ask` holds what is asked for and the operation that waits for the answer, `Turn::Done`
the result. Contracts of such operations speak of a `World`, which says how everything that can be
asked for is answered: they state what the operation comes to in every world, and what it asks for
in it, in order.

## Layout

- `src/` is the library.
  - `error`, `fsm`, `factory`, `counter`, `counter_codec`: errors, the state machine that a user
    supplies, and the counter that serves as an example of one.
  - `observation`, `membership`, `log_id`: what a group looks like from outside.
  - `control`, `sampling`, `transfer`, `span`: prechecks of control requests, samples of a leader,
    and leadership transfer.
  - `files`, `snapshot`, `storage`: what is asked of the file system, the stored records, errors.
  - `catalog`, `describe`, `staging`, `activation`: the catalog of native snapshots.
  - `directory`: a directory tree, and the laws of the catalog on it.
  - `bridge`, `building`, `install`: the store between Raft and the state machine.
  - `maintenance`, `lifecycle`, `runtime`: compaction, shutdown, snapshot advertisements.
  - `rpc`, `snapshot_rpc`, `pool`: limits and framing of requests, and channels to peers.
  - `bytes`, `checksum`, `collections`, `text`: small tools.
- `tests/` runs the library.
- `app/` is ordinary Rust around it: the file system, gRPC and the Raft engine.

Functions named `law_..` state what holds across operations. Functions marked
`#[verifier::external_body]` call other crates; their contracts are trusted, and each says in its
comment what it claims.
