# raw_migration

A verified model of the multi-contract test suite around the JunoSwap RAW
staking migration to Palomadex. The library decides what the suite sends to
the chain; `app/` runs a `cw_multi_test::App` that carries the requests out
and answers.

- `src/amounts.rs`: decimals (by their atomics) and coins.
- `src/denom.rs`: pool denominations, pool sides, Palomadex assets.
- `src/msgs.rs`: the requests (instantiations, executions, migrations, queries).
- `src/builder.rs`: the suite's configuration and each deployment request.
- `src/deploy.rs`: the deployment as a state machine, answer by answer.
- `src/suite.rs`: a deployed suite's requests: migration, liquidity, staking, reads.
- `src/driver.rs`: the full migration loop as a state machine, with its laws.
- `src/plan.rs`: running a plan of requests in order, stopping at a failure.
- `src/hook.rs`: the staking hook, serialized by cosmwasm-std.
- `src/querier.rs`: the pair-description query.
