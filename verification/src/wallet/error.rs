//! Failures of wallet operations.

use crate::address::Address;
use crate::amount::Btc;
use crate::network::Network;
use vstd::prelude::*;

verus! {

/// The collaborator that failed.
#[derive(Debug, Clone, Copy, PartialEq, Eq, Structural)]
pub enum Upstream {
    /// No further internal address could be derived.
    AddressDerivation,
    /// The signing capability failed, or was handed inputs it cannot serve.
    Signing,
}

/// Why a wallet operation did not produce a transaction.
#[derive(Debug, PartialEq, Eq)]
pub enum WalletError {
    /// The destination address cannot receive funds on the wallet's network.
    InvalidDestination { address: Address, network: Network },
    /// The amount to send plus the fee exceeds the value of the eligible
    /// coins. Both figures are in whole-coin units.
    InsufficientFunds { available: Btc, required: Btc },
    /// The chain height cannot be written as a lock time.
    Locktime(bitcoin::absolute::ConversionError),
    /// A collaborator of the engine failed.
    UpstreamFailure(Upstream),
}

} // verus!
