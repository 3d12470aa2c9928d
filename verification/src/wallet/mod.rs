//! The wallet as the engine sees it, and the direct-send operation.

pub mod api;
pub mod coins;
pub mod direct_send;
pub mod error;
pub mod transaction;

pub use api::{UTXOSpendInfo, Utxo, Wallet};
pub use direct_send::{Destination, SendAmount};
pub use error::WalletError;
pub use transaction::{
    BasicTxBuilder, BuildTxParams, ContractTxBuilder, FidelityTxBuilder, TransactionBuilder,
    TxInput,
};
