//! A development node that runs a runtime in memory and answers the
//! node's RPC queries from the blocks it has produced.
pub mod hex_text;
pub mod hashing;
pub mod block;
pub mod keyed;
pub mod state;
pub mod rpc_types;
pub mod chain;
pub mod production;
pub mod node;
pub mod laws;
