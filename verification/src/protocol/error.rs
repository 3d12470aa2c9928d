//! Failures of contract handling.

use vstd::prelude::*;

verus! {

/// Why a swap contract could not be handled.
#[derive(Debug)]
pub enum ContractError {
    /// A key or signature operation failed.
    Secp(bitcoin::secp256k1::Error),
    /// The contract breaks a rule of the protocol.
    Protocol(&'static str),
}

} // verus!
