# graph_of_humanity

A verified library for a proof-of-personhood program on Solana: members
apply for citizenship, a committee of randomly drawn citizen judges votes on
each application, and citizens are paid a universal basic income (UBI) in
epochs from a treasury, with recipients drawn at random.

`src/` holds the logic, proved with Verus:

- `state`, `event`, `error`: the accounts, the announcements and the
  refusals, as plain values (addresses are 32-byte arrays).
- `instructions/`: one module per instruction. Each takes the contents of
  the instruction's accounts, checks them in order, and either refuses with
  the first failing check (leaving the accounts untouched) or updates them
  and returns the event and the amount to transfer. `rejection` and
  `performed` state both outcomes exactly; `aborts` and `would_abort` name
  the inputs on which the program stops on an overflow or a missing value.
- `selection`: drawing distinct judges or UBI recipients from a revealed
  32-byte random value; `utils`: the SHA-256 based hash behind the draw.
- `fees`: the application fees, the judges' reward and the UBI budget.
- `laws`: properties spanning instructions (citizen indices, one reward per
  vote, one payment per voucher, UBI epoch bookkeeping, the draws).

`app/` is the Anchor program around the library: account validation (seeds,
signers, token accounts), the token transfers, the VRF requests, reading the
revealed randomness and the clock, storing the accounts and emitting the
events. The share of citizens paid in an epoch is computed there, in
floating point.
