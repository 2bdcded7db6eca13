# multi_test

A verified core of a blockchain application simulator for testing smart
contracts, written in Verus.

- `src/block.rs`: block information and advancing to the next block.
- `src/storage.rs`: the key-value store interface, and `cosmwasm_std::MemoryStorage` behind it.
- `src/transactions.rs`: write caches over a store, their logs and their commit.
- `src/executor.rs`: responses and events.
- `src/module.rs`: the module interfaces (`Module`, `Staking`, `Wasm`) and the failing and accepting modules.
- `src/wasm.rs`: a wasm module that keeps uploaded code and runs no contract.
- `src/router.rs`: messages, queries and privileged actions; the router that sends them to modules; the querier.
- `src/app.rs`: the application: atomic execution of message batches, privileged actions, code storage, blocks, queries.
- `app/lib.rs`: conversions from and to `cosmwasm_std` types, JSON parsing and serialization, and the `Querier` implementation.

## What the module interfaces leave out

Modules are handed the api of the chain, the store, the block and their
message, but not the router or a querier over it. So a module cannot route a
sub-message to another module or query another module while it runs, and the
staking queue is processed without the router. Handing a module the router
with a bound through which it could call back would make the router's own
definition refer to itself, which Verus refuses. The api's type carries no
bound, so a module can hand it on but not use it, and each module operation is
a function of the store, the block and its arguments, as its trait's spec
functions state.
