//! Fast-path admission of mempool operations: the per-operation precheck
//! state machine, the next-block protocol slot, the endorsing-rights and
//! applied-block caches, and the table that owns the operations in flight.

pub mod actions;
pub mod blocks;
pub mod driver;
pub mod flow;
pub mod hash;
pub mod json;
pub mod laws;
pub mod operation;
pub mod protocol;
pub mod response;
pub mod rights;
pub mod spawn_server;
pub mod state;
pub mod table;
