# bank_core

The rules of a small core-banking system, written in Verus and proved
against their contracts: product and reference-data caches, account
numbering, eligibility and personal rates, deposit and loan ledgers,
transaction posting and the outbox publisher's retry policy.

- `src/` is the verified library.  Decimal arithmetic goes through
  `rust_decimal`, dates through `chrono` and random draws through `rand`,
  each behind a small trusted wrapper in the module that uses it
  (`decimal`, `calendar`, `numbering`).
- `tests/` exercises the library on concrete values.
- `app/` is the unverified program around it: the outbox publisher with its
  metrics endpoint, and the YDB statements of the ledgers and catalogue
  loaders, which read balances, ask the library what to write, and write it.
