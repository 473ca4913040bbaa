# escrow

A verified escrow for swapping SOL and SPL tokens between two parties, built
for an Anchor program on Solana.

- `src/` is the verified library (Verus): the trade record (`state`), the
  program id and the escrow authority address (`address`), the account lists
  of token- and system-program calls (`cpi`), the two instructions
  (`instructions::create_trade`, `instructions::cancel_trade`) and the
  properties that span them (`laws`).
- `app/` is the Anchor program around it: account validation, serialisation,
  and the calls into the token and system programs that the library's
  decisions list.
- `tests/` exercises the library on concrete accounts.
