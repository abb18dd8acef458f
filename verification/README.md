# syncy

Verified core of the syncy network tools, written in Verus.

- `src/assets`: the NFT registry. Collections hand out item indices, items are
  split into fungible fractions, fractions move between accounts and carry
  holds. Storage is kept in `BTreeMap`s behind `NFTImplT`, whose view
  `NFTState` every contract speaks of; its type invariant is that every
  record is kept under the key its own fields give. The token ledgers that the registry
  drives are the traits `Nonfungibles` and `FTImplT`.

  The registry holds its six maps and its identifier counter itself, as
  `BTreeMap`s and an `Option`, rather than as a chain runtime's storage items:
  those read and write through the runtime's externalities, which exist only
  while a runtime executes, so no plain test or proof could reach them. A
  runtime embedding the registry stores the same records; `app/records.rs`
  gives their SCALE encoding and type metadata.

  Every ledger call is described by two spec functions of the ledger before
  the call: its answer, and the ledger after a call that succeeded. The
  registry's contracts state what each call is handed, that a refusal of the
  registry's own leaves both ledgers untouched, and what the registry does
  with each answer. These descriptions are trusted of each ledger
  implementation, which lives outside this crate.
- `src/cli`: the options and dispatch of the `syn` command line.
- `src/node`: the node's console commands, its handling of network events as
  plain values, and the exact console lines of each report and the stream
  they go to. A peer is written in Base58 by the `bs58` crate, as libp2p
  writes it.
- `src/core_model`, `src/services`: the data model of the network.
- `app/`: the `syn` program (argument parsing, printing) and the libp2p node
  runtime, which call into the library.
- `tests/`: scenarios for the registry, the command line and the node.
