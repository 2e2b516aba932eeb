# tubor_yield

The logic of the Tubor Yield Solana program — agents and master agents,
users and referrals, trades and their oracle prices, the protocol account
and the multisig that approves admin changes — as a library verified with
Verus.

## Layout

- `src/math`: checked arithmetic, rounding division, casts, 192- and
  256-bit integers, basis points and the proportional helpers.
- `src/state`: the accounts (`MasterAgent`, `Agent`, `User`, `Trade`,
  `TYield`, `Multisig`, oracles) with the operations on them. Each
  operation states in its contract what it returns and how it changes the
  account; the laws that span several calls stand as proof functions
  (`lemma_*`), such as the multisig's tally staying valid through any
  sequence of signatures, or a consensus price not depending on the order
  of its readings.
- `src/instructions`: what each instruction decides, from the accounts it
  reads to the accounts it writes, including multisig approval of admin
  instructions and the checks of Pyth price updates.
- `src/clock.rs`, `src/hash.rs`, `src/pda.rs`, `src/text.rs`: the calls
  into Anchor, the Solana SDK and std that the logic makes, with the
  contracts the library relies on.
- `app/`: the on-chain side: reading accounts into the library's values,
  token and NFT transfers, events, and what needs floating point.
- `tests/`: tests of the library on concrete values.
