# tendermint_finality

The voter of a Tendermint finality gadget, verified with Verus.

- `src/` is the library. It decides: which votes are repeated after a restart (`vote`,
  `voter_state`, `shared`), which completed rounds are kept and how they are stored (`rounds`,
  `codec`), which block is proposed next (`target`), what a finalization does and in which order
  (`finality`), with what the voter enters a round (`environment`), and what the runtime keeps of
  the authorities (`pallet`). The locks of `parking_lot` and the codec of `parity-scale-codec`
  are used through a few functions whose contracts are trusted (`locks`, `codec`).
- `app/` is the node around it: it reads the chain, writes the database, registers the metrics
  and keeps the storage of the runtime.
- `tests/` runs the library on concrete values.

The search for a block to propose and the finalization of a block are state machines: `action`
says what is to be read or written next, `advance` takes what came of it, and `accepts` says
whether the machine can go on with that.
