//! Decision logic of a local Solana test network: the clock, the block
//! producer, the Geyser plugin host, the RPC server and the start-up sequence.

pub mod block_production;
pub mod clock;
pub mod event;
pub mod failure;
pub mod geyser;
pub mod rpc;
pub mod startup;
pub mod transaction;
