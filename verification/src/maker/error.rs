//! All failures that a maker can meet, gathered in one type.

use crate::protocol::error::ContractError;
use crate::wallet::error::WalletError;
use std::sync::{MutexGuard, PoisonError, RwLockReadGuard, RwLockWriteGuard};
use vstd::prelude::*;
use vstd::std_specs::convert::FromSpecImpl;

verus! {

/// The standard library's I/O error, carried unread.
#[verifier::external_type_specification]
#[verifier::external_body]
pub struct ExIoError(std::io::Error);

/// The error of `bitcoin::secp256k1`, carried unread.
#[verifier::external_type_specification]
#[verifier::external_body]
pub struct ExSecpError(bitcoin::secp256k1::Error);

/// The error of `serde_cbor`, carried unread.
#[verifier::external_type_specification]
#[verifier::external_body]
pub struct ExCborError(serde_cbor::Error);

/// The standard library's mark of a lock whose holder panicked.
#[verifier::external_type_specification]
#[verifier::external_body]
#[verifier::reject_recursive_types(T)]
pub struct ExPoisonError<T>(PoisonError<T>);

/// The standard library's guard of a lock held for reading.
#[verifier::external_type_specification]
#[verifier::external_body]
#[verifier::reject_recursive_types(T)]
pub struct ExRwLockReadGuard<'a, T: ?Sized>(RwLockReadGuard<'a, T>);

/// The standard library's guard of a lock held for writing.
#[verifier::external_type_specification]
#[verifier::external_body]
#[verifier::reject_recursive_types(T)]
pub struct ExRwLockWriteGuard<'a, T: ?Sized + 'a>(RwLockWriteGuard<'a, T>);

/// The standard library's guard of a held mutex.
#[verifier::external_type_specification]
#[verifier::external_body]
#[verifier::reject_recursive_types(T)]
pub struct ExMutexGuard<'a, T: ?Sized + 'a>(MutexGuard<'a, T>);

/// A failure on the maker's side, by where it came from.
#[derive(Debug)]
pub enum MakerError {
    /// Reading or writing failed.
    IO(std::io::Error),
    /// The peer sent another message than the protocol expects at this point.
    UnexpectedMessage { expected: String, got: String },
    /// A failure that has no variant of its own.
    General(&'static str),
    /// A lock was poisoned: its holder panicked.
    MutexPossion,
    /// A key or signature operation failed.
    Secp(bitcoin::secp256k1::Error),
    /// A swap contract could not be handled.
    ContractError(ContractError),
    /// The wallet failed.
    Wallet(WalletError),
    /// Stored or received bytes could not be decoded.
    Deserialize(serde_cbor::Error),
}

impl From<std::io::Error> for MakerError {
    fn from(value: std::io::Error) -> (r: Self) {
        Self::IO(value)
    }
}

impl FromSpecImpl<std::io::Error> for MakerError {
    open spec fn obeys_from_spec() -> bool {
        true
    }

    open spec fn from_spec(value: std::io::Error) -> Self {
        MakerError::IO(value)
    }
}

impl From<serde_cbor::Error> for MakerError {
    fn from(value: serde_cbor::Error) -> (r: Self) {
        Self::Deserialize(value)
    }
}

impl FromSpecImpl<serde_cbor::Error> for MakerError {
    open spec fn obeys_from_spec() -> bool {
        true
    }

    open spec fn from_spec(value: serde_cbor::Error) -> Self {
        MakerError::Deserialize(value)
    }
}

impl<'a, T> From<PoisonError<RwLockReadGuard<'a, T>>> for MakerError {
    fn from(value: PoisonError<RwLockReadGuard<'a, T>>) -> (r: Self) {
        Self::MutexPossion
    }
}

impl<'a, T> FromSpecImpl<PoisonError<RwLockReadGuard<'a, T>>> for MakerError {
    open spec fn obeys_from_spec() -> bool {
        true
    }

    open spec fn from_spec(value: PoisonError<RwLockReadGuard<'a, T>>) -> Self {
        MakerError::MutexPossion
    }
}

impl<'a, T> From<PoisonError<RwLockWriteGuard<'a, T>>> for MakerError {
    fn from(value: PoisonError<RwLockWriteGuard<'a, T>>) -> (r: Self) {
        Self::MutexPossion
    }
}

impl<'a, T> FromSpecImpl<PoisonError<RwLockWriteGuard<'a, T>>> for MakerError {
    open spec fn obeys_from_spec() -> bool {
        true
    }

    open spec fn from_spec(value: PoisonError<RwLockWriteGuard<'a, T>>) -> Self {
        MakerError::MutexPossion
    }
}

impl<'a, T> From<PoisonError<MutexGuard<'a, T>>> for MakerError {
    fn from(value: PoisonError<MutexGuard<'a, T>>) -> (r: Self) {
        Self::MutexPossion
    }
}

impl<'a, T> FromSpecImpl<PoisonError<MutexGuard<'a, T>>> for MakerError {
    open spec fn obeys_from_spec() -> bool {
        true
    }

    open spec fn from_spec(value: PoisonError<MutexGuard<'a, T>>) -> Self {
        MakerError::MutexPossion
    }
}

impl From<bitcoin::secp256k1::Error> for MakerError {
    fn from(value: bitcoin::secp256k1::Error) -> (r: Self) {
        Self::Secp(value)
    }
}

impl FromSpecImpl<bitcoin::secp256k1::Error> for MakerError {
    open spec fn obeys_from_spec() -> bool {
        true
    }

    open spec fn from_spec(value: bitcoin::secp256k1::Error) -> Self {
        MakerError::Secp(value)
    }
}

impl From<ContractError> for MakerError {
    fn from(value: ContractError) -> (r: Self) {
        Self::ContractError(value)
    }
}

impl FromSpecImpl<ContractError> for MakerError {
    open spec fn obeys_from_spec() -> bool {
        true
    }

    open spec fn from_spec(value: ContractError) -> Self {
        MakerError::ContractError(value)
    }
}

impl From<WalletError> for MakerError {
    fn from(value: WalletError) -> (r: Self) {
        Self::Wallet(value)
    }
}

impl FromSpecImpl<WalletError> for MakerError {
    open spec fn obeys_from_spec() -> bool {
        true
    }

    open spec fn from_spec(value: WalletError) -> Self {
        MakerError::Wallet(value)
    }
}

} // verus!
