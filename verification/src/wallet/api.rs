//! Coins, their spending rules, and the wallet state that a spend consumes.

use crate::address::Address;
use crate::amount::Amount;
use crate::network::Network;
use crate::wallet::error::{Upstream, WalletError};
use vstd::prelude::*;

verus! {

/// Bytes of the witness that unlocks a single-signature coin.
pub const P2PWPKH_WITNESS_SIZE: usize = 107;

/// Bytes of the witness that unlocks a 2-of-2 multisignature coin.
pub const P2WSH_MULTISIG_2OF2_WITNESS_SIZE: usize = 222;

/// An unspent transaction output that the wallet knows of.
#[derive(Debug, Clone, PartialEq, Eq)]
pub struct Utxo {
    pub txid: [u8; 32],
    pub vout: u32,
    pub amount: Amount,
    pub script_pub_key: Vec<u8>,
}

/// How a coin may be spent, with the material its spending needs. The kind is
/// given to a coin when it is found and never changes.
#[derive(Debug, Clone, PartialEq, Eq)]
pub enum UTXOSpendInfo {
    /// Owned outright by the wallet; unlocked by one signature.
    SeedCoin { path: String, input_value: Amount },
    /// Shared with a swap counterparty; unlocked by two signatures.
    SwapCoin { multisig_redeemscript: Vec<u8> },
    /// Time-locked collateral.
    FidelityBondCoin { index: u32, input_value: Amount },
    /// Unlocked by revealing a hash preimage; part of a swap in flight.
    HashlockContract { swapcoin_multisig_redeemscript: Vec<u8>, input_value: Amount },
    /// Unlocked once a time lock matures; the refund path of a swap in flight.
    TimelockContract { swapcoin_multisig_redeemscript: Vec<u8>, input_value: Amount },
}

/// A coin offered for spending: the output and how it may be spent.
pub type Coin = (Utxo, UTXOSpendInfo);

impl UTXOSpendInfo {
    /// The assumed size of the witness that unlocks a coin of this kind, for
    /// the kinds that an ordinary spend may consume.
    pub open spec fn spec_witness_size(self) -> Option<nat> {
        match self {
            UTXOSpendInfo::SeedCoin { .. } => Some(P2PWPKH_WITNESS_SIZE as nat),
            UTXOSpendInfo::SwapCoin { .. } => Some(P2WSH_MULTISIG_2OF2_WITNESS_SIZE as nat),
            _ => None,
        }
    }

    /// An ordinary spend may consume seed coins and swap coins, and nothing
    /// else.
    pub open spec fn is_spendable(self) -> bool {
        self is SeedCoin || self is SwapCoin
    }

    /// Looks the kind up in the witness-size table.
    pub fn witness_size(&self) -> (r: Option<usize>)
        ensures
            r is Some == self.is_spendable(),
            match r {
                Some(n) => self.spec_witness_size() == Some(n as nat),
                None => self.spec_witness_size() is None,
            },
    {
        match self {
            UTXOSpendInfo::SeedCoin { .. } => Some(P2PWPKH_WITNESS_SIZE),
            UTXOSpendInfo::SwapCoin { .. } => Some(P2WSH_MULTISIG_2OF2_WITNESS_SIZE),
            UTXOSpendInfo::FidelityBondCoin { .. } => None,
            UTXOSpendInfo::HashlockContract { .. } => None,
            UTXOSpendInfo::TimelockContract { .. } => None,
        }
    }
}

/// The wallet state that building a transaction reads and consumes: the
/// configured chain, the height of the chain tip, and the wallet's internal
/// (change-branch) addresses in derivation order, of which the first
/// `next_internal` are already handed out.
#[derive(Debug)]
pub struct Wallet {
    pub network: Network,
    pub chain_height: u64,
    pub internal_addresses: Vec<Address>,
    pub next_internal: usize,
}

impl Wallet {
    /// Whether `count` more internal addresses can be handed out.
    pub open spec fn has_internal(self, count: nat) -> bool {
        self.next_internal + count <= self.internal_addresses@.len()
    }

    /// The encoding of the `i`-th internal address not yet handed out.
    pub open spec fn upcoming_internal(self, i: int) -> Seq<char> {
        self.internal_addresses@[self.next_internal + i]@
    }

    /// Hands out the next `count` internal addresses, in order, and advances
    /// past them. An address once handed out is never handed out again,
    /// whatever the caller does with it. When fewer than `count` are left,
    /// nothing is consumed and the derivation failure is reported.
    pub fn get_next_internal_addresses(&mut self, count: usize) -> (r: Result<Vec<Address>, WalletError>)
        ensures
            final(self).network == old(self).network,
            final(self).chain_height == old(self).chain_height,
            final(self).internal_addresses == old(self).internal_addresses,
            old(self).has_internal(count as nat) ==> {
                &&& r matches Ok(v)
                &&& v@.len() == count
                &&& forall|i: int| 0 <= i < count ==> (#[trigger] v@[i])@ == old(self).upcoming_internal(i)
                &&& final(self).next_internal == old(self).next_internal + count
            },
            !old(self).has_internal(count as nat) ==> {
                &&& r matches Err(WalletError::UpstreamFailure(Upstream::AddressDerivation))
                &&& final(self).next_internal == old(self).next_internal
            },
    {
        let len = self.internal_addresses.len();
        if self.next_internal > len || count > len - self.next_internal {
            return Err(WalletError::UpstreamFailure(Upstream::AddressDerivation));
        }
        let start = self.next_internal;
        let mut out: Vec<Address> = Vec::new();
        let mut i: usize = 0;
        while i < count
            invariant
                i <= count,
                start + count <= len == self.internal_addresses@.len(),
                out@.len() == i,
                forall|j: int| 0 <= j < i ==> (#[trigger] out@[j])@ == self.internal_addresses@[start + j]@,
            decreases count - i,
        {
            out.push(self.internal_addresses[start + i].clone());
            i += 1;
        }
        self.next_internal = start + count;
        Ok(out)
    }
}

} // verus!
