//! Indexing of Solana blocks: decoding of transactions, accounting of the
//! SOL that system-program transfers move, fees, per-account rows and the
//! polling decisions of the indexer loop.

pub mod model;
pub mod solana;
pub mod decode;
pub mod sum;
pub mod block;
pub mod records;
pub mod indexer;
pub mod laws;
