# command_governor

The durable core of a local daemon that supervises coding workers: what is owed to whom, who was
woken for it, which effects left the machine, and what a crash leaves unknown. Everything is an
append-only event ledger with projections that can be replayed from it, and every operation fails
closed.

The library in `src/` is verified with Verus. It decides; it never performs I/O. An operation is
handed what was read, answers the event to append and the rows to write, and is told what became of
them.

- `src/domain`: identities, fences, conflicts, and the data the rules of the domain speak of. The
  rules themselves (state machines, admission, digests) are parameters: each contract is stated for
  whatever rule it is given.
- `src/store`: the ledger, its safe metadata grammar, the columns, the folds that rebuild
  projections, the comparison of projections with their replay, migrations, and one module per
  group of operations under `ops`. `ops/decide.rs` fixes the order in which fences, reads and rules
  are consulted, and `ops/pass.rs` lays out the whole startup quarantine. `ops/replayed.rs` holds
  the laws that what an operation writes is what the ledger replays and what a later read gives
  back.
- `src/daemon`: the state root, the instance lock, the control protocol, the log, the startup
  sequence, the reports, the diagnosis, and the resume of a worker.
- `src/digest.rs`, `src/text.rs`: framing, hexadecimal and decimal text.

`app/` is ordinary Rust around it: SQLite, files, sockets, signals and processes.

`tests/` runs the library on concrete values.
