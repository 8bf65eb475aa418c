# service_aura

The decisions of the service of an Aura parachain node, verified with Verus.

- `src/partial.rs`, `src/start.rs`: in which order the parts of a node are made and the node is
  started, with which settings and out of which parts, and with which error it ends where something
  fails. Each is a sequence that hands out what is to be done next, with the parts that it takes,
  and keeps what was made.
- `src/types.rs`: the types of these parts, which the owner chooses.
- `src/lazy.rs`: a value that is built when it is first accessed, and once.
- `src/consensus.rs`, `src/import_queue.rs`: which of two engines writes a block and which of two
  verifiers checks one, going by whether the runtime offers the Aura API at the parent block.
- `src/inherents.rs`, `src/header.rs`: the slot of a point in time, the inherent data of a block,
  building by a clock that keeps the duration of a slot as it was read once, and the hash of a
  header.
- `src/config.rs`, `src/error.rs`: what is read of a configuration, and what errors come out as.
- `src/laws.rs`: what holds of every start of a node: of the order of its steps, of how it ends, and
  of which part goes where.

`app/` carries the decisions out with Substrate and Cumulus.
