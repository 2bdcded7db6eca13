//! A verified core of a blockchain application simulator: block bookkeeping,
//! key-value storage with write caches, message routing to modules and the
//! atomic execution of message batches.

pub mod block;
pub mod storage;
pub mod transactions;
pub mod executor;
pub mod module;
pub mod router;
pub mod app;
pub mod wasm;
