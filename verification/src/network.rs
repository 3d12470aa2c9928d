//! The chains a wallet can be configured for.

use vstd::prelude::*;

verus! {

/// The chain that a wallet acts on.
#[derive(Debug, Clone, Copy, PartialEq, Eq, Structural)]
pub enum Network {
    /// Mainnet.
    Bitcoin,
    /// The test network.
    Testnet,
    /// The fourth test network.
    Testnet4,
    /// The signet network.
    Signet,
    /// A local regression-test chain.
    Regtest,
}

impl Network {
    /// Testnet and Signet addresses share one encoding, so an address alone
    /// cannot tell the two networks apart.
    pub open spec fn shares_test_encoding(self) -> bool {
        self == Network::Testnet || self == Network::Signet
    }

    /// Whether this network is Testnet or Signet.
    pub fn is_testnet_or_signet(self) -> (r: bool)
        ensures
            r == self.shares_test_encoding(),
    {
        match self {
            Network::Testnet => true,
            Network::Signet => true,
            _ => false,
        }
    }
}

} // verus!
