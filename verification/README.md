# degendevil

The rules of an on-chain coin-flip game, verified with Verus.

- `src/` is the verified library: account addresses (`program`, `degenrand`),
  the house's table and its fees (`flip`, `fees`), the odds of a flip
  (`odds`), the planning of a flip and of its settlement (`flip`), and the
  closing of an account (`lamports`), and the reading of the oracle's
  request account (`degenrand`). Calls into the Solana crates (base58
  decoding of an address, the derivation of program addresses, SHA-256)
  stand behind the trusted items in `address`.
- `app/` is the Anchor program around it: entry points, account layouts, and
  the steps that the library's plans list, carried out in order.
- `tests/` runs the library on concrete values, with the real outside crates.
