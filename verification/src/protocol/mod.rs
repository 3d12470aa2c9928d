//! What the swap protocol shares with the wallet.

pub mod error;
