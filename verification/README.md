# campaign-escrow

An escrow for creator campaigns. A business deposits the budget of a campaign,
creators apply and are selected, hand in proof of their work, and are paid out
of the escrow less the platform fee. What is reserved for a selected creator
stays reserved: cancelling, expiring or reclaiming a campaign returns only what
was never committed.

- `src/` is the contract itself, verified with Verus.
  - `contract.rs`: the calls. The contract of each one fixes the answer, the
    entries and everything the call asks for.
  - `rules.rs`: for each call, why it is refused and what it leaves behind.
  - `storage.rs`, `types.rs`, `shared.rs`, `error.rs`: the entries and their
    validity.
  - `env.rs`, `action.rs`: what a call sees of the ledger and asks of it.
  - `laws.rs`, `solvency.rs`: what holds of the escrow as a whole. Committed
    payouts survive the closing of a campaign, the books always balance, the
    budget of a funded campaign is what it holds, has paid and has refunded, and
    the contract always holds exactly what its campaigns have in escrow.
  - `calls.rs`, `books.rs`, `sums.rs`: histories of calls and the sums that the
    laws speak of.
- `app/` is the Soroban contract around it. It reads the ledger's clock
  and the entries that a call works on, lets the library work the call out,
  demands the authorizations, moves the tokens, publishes the events and writes
  the entries back.
- `tests/` runs the library, with a real token contract on a test ledger where
  money moves.
