//! Decision logic of a chain-indexing pipeline: chain events, the
//! rollback-aware cursor, the mutation vocabulary and the commit protocol of
//! the storage engines, each with a machine-checked contract.

pub mod crosscut;
pub mod framework;
pub mod storage;
pub mod sources;
pub mod reducers;
pub mod runtime;
