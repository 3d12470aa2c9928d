//! Transaction construction for direct sends from a coinswap wallet.
//!
//! Given coins tagged with how they may be spent, the engine keeps only the
//! coins that an ordinary spend may touch, assembles an unsigned transaction,
//! prices it from its virtual size, decides whether a change output is worth
//! adding, and states the virtual size that the signed transaction must have.

pub mod address;
pub mod amount;
pub mod fee;
pub mod maker;
pub mod network;
pub mod protocol;
pub mod tx;
pub mod wallet;
