# escrow

A token escrow for Solana, verified with Verus. A maker locks tokens of one
mint in a vault owned by a program-derived escrow account and asks for an
amount of a second mint; a taker completes the swap, or the maker takes the
tokens back.

- `src/` is the verified library. It decodes instruction data, reads the
  escrow state and token accounts, checks the accounts of `make`, `take` and
  `refund`, and answers with the steps to perform (cross-program invocations,
  the escrow state to write, lamports to move) or with the error or failed
  check that ends the instruction. `src/properties.rs` holds the laws that
  relate the instructions.
- `app/` runs on the runtime's accounts: it copies what the library reads,
  performs the steps through the system and token programs, and panics where
  the library reports a failed check.
- `tests/` runs the library on concrete accounts.

`Cargo.toml` names `solana-address`, the address crate that pinocchio
re-exports, only to switch on its `curve25519` feature: without it,
`create_program_address` (which derives the escrow's address) exists only on
chain.
