# remittance_stablecoin

A Token-2022 stablecoin for remittances, written in Verus. The program creates mints with
transfer fees, on-mint metadata and token accounts frozen until the issuer thaws them after
KYC, and offers confidential transfers with encrypted fees on mints set up for them.

## Layout

- `src/` is the verified library. Each instruction is a function from the request's account
  addresses and arguments (and, where the program reads them, the mint's bytes, its lamports,
  the current epoch, or the rent-exempt minimum that `app/` computes for the size the library
  gives) to the ordered list of instructions it issues to Token-2022 and the system program,
  with a contract that pins down that list and every error. The rent-exempt minimum itself is
  a floating-point product of the rent sysvar and is worked out in `app/`.
  - `instructions/`: one module per instruction, each with its accounts and its handler.
  - `program.rs`: the program's entry points.
  - `fee.rs`: the transfer fee of a Token-2022 mint, as a specification, and its laws.
  - `token_2022.rs`, `token_metadata.rs`, `system.rs`: the trusted items through which the
    library calls the Token-2022, token-metadata and system-program instruction builders and
    account readers.
  - `call.rs`, `keys.rs`, `extension.rs`, `error.rs`: the plain values the library works on.
- `tests/`: tests that run the library against the real outside crates.
- `app/`: the Anchor program that validates accounts, reads sysvars and account data, asks the
  library for the instructions to issue and invokes them.
