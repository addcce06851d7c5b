# liquidity_pool_contract

The accounting of a lending liquidity pool, verified with Verus.

Liquidity providers deposit tokens and receive shares; a registered credit
line borrows from the pool to fund merchant loans, repays principal with
interest, and hands over forfeited guarantees on default. Interest is split
85 % to the providers (it stays in the pool and raises the value of every
share), 10 % to a treasury and the remainder to a merchant incentive fund.

## Layout

- `src/` — the verified library.
  - `pool.rs`: `LiquidityPoolContract`, the pool's state and every request on
    it. A request either is refused with a `LiquidityPoolError`, leaving the
    pool untouched, or updates the pool, takes the reentrancy guard and
    returns the token transfers and events (`Effect`) the host must carry
    out; the host then calls `exit_non_reentrant`.
  - `spec.rs`: the mathematical model (`PoolView`) and, for each request, the
    refusal it meets, the state it leads to and the effects it asks for.
  - `laws.rs`: properties across requests (share ledger consistency, locked
    liquidity bounds, the fee split, no profit from a deposit-withdraw round
    trip, loan round trips, share price monotonicity, pausing).
  - `ledger.rs`, `account.rs`, `math.rs`, `effects.rs`, `errors.rs`,
    `types.rs`, `access.rs`: the share ledger, addresses, checked `i128`
    arithmetic, effects, errors, constants and access checks.
- `tests/` — the scenario tests, run against the library with a small token
  ledger standing in for the chain.
- `app/` — the Soroban contract: authentication, contract storage, token
  transfers, events and aborting with contract errors around the library.
