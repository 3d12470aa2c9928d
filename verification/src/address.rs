//! Addresses in their textual encoding.
//!
//! An [`Address`] is a string that the `bitcoin` crate accepts as an address.
//! What that crate derives from the string (the networks it is valid for, its
//! output script) is taken from the crate, not recomputed here.

use crate::network::Network;
use std::str::FromStr;
use vstd::prelude::*;

verus! {

/// The `bitcoin` crate's reason for refusing a string as an address. It is
/// carried to the caller unread.
#[verifier::external_type_specification]
#[verifier::external_body]
pub struct ExAddressParseError(bitcoin::address::ParseError);

/// Whether `bitcoin::Address::from_str` accepts `encoded`.
pub uninterp spec fn is_address(encoded: Seq<char>) -> bool;

/// What `bitcoin::Address::is_valid_for_network` answers for the address that
/// `encoded` parses to.
pub uninterp spec fn address_valid_for(encoded: Seq<char>, network: Network) -> bool;

/// The bytes of the script that `bitcoin::Address::script_pubkey` generates
/// for the address that `encoded` parses to.
pub uninterp spec fn address_script(encoded: Seq<char>) -> Seq<u8>;

/// No address has an output script longer than this: a witness program is at
/// most 40 bytes, behind a version opcode and a push opcode.
pub const MAX_ADDRESS_SCRIPT_LEN: usize = 42;

/// Calls `bitcoin::Address::from_str` and keeps only whether it succeeded:
/// `Ok` exactly on the strings that the crate parses as an address, otherwise
/// the crate's own error.
#[verifier::external_body]
fn check_address(s: &str) -> (r: Result<(), bitcoin::address::ParseError>)
    ensures
        r.is_ok() == is_address(s@),
{
    match bitcoin::Address::from_str(s) {
        Ok(_) => Ok(()),
        Err(e) => Err(e),
    }
}

/// Calls `bitcoin::Address::is_valid_for_network` on the parsed address. The
/// answer depends on the encoding and the network alone.
#[verifier::external_body]
fn valid_for_network(encoded: &str, network: Network) -> (r: bool)
    requires
        is_address(encoded@),
    ensures
        r == address_valid_for(encoded@, network),
{
    let n = match network {
        Network::Bitcoin => bitcoin::Network::Bitcoin,
        Network::Testnet => bitcoin::Network::Testnet,
        Network::Testnet4 => bitcoin::Network::Testnet4,
        Network::Signet => bitcoin::Network::Signet,
        Network::Regtest => bitcoin::Network::Regtest,
    };
    bitcoin::Address::from_str(encoded).unwrap().is_valid_for_network(n)
}

/// Calls `bitcoin::Address::script_pubkey` on the parsed address and hands
/// out the script's bytes. The script is a pay-to-pubkey-hash script (25
/// bytes), a pay-to-script-hash script (23 bytes) or a witness program of 2
/// to 40 bytes behind two opcodes.
#[verifier::external_body]
fn script_of(encoded: &str) -> (r: Vec<u8>)
    requires
        is_address(encoded@),
    ensures
        r@ == address_script(encoded@),
        r@.len() <= MAX_ADDRESS_SCRIPT_LEN,
{
    bitcoin::Address::from_str(encoded).unwrap().assume_checked().script_pubkey().into_bytes()
}

/// A string that parses as an address.
#[derive(Debug, PartialEq, Eq)]
pub struct Address {
    encoded: String,
}

impl View for Address {
    type V = Seq<char>;

    closed spec fn view(&self) -> Seq<char> {
        self.encoded@
    }
}

impl Clone for Address {
    fn clone(&self) -> (r: Self)
        ensures
            r@ == self@,
    {
        proof {
            use_type_invariant(self);
        }
        Address { encoded: self.encoded.clone() }
    }
}

impl Address {
    #[verifier::type_invariant]
    spec fn parses(self) -> bool {
        is_address(self.encoded@)
    }

    /// Parses `s` as an address of any network. Succeeds exactly on the
    /// strings that are addresses, and keeps the string as it was given.
    pub fn from_str(s: &str) -> (r: Result<Address, bitcoin::address::ParseError>)
        ensures
            r.is_ok() == is_address(s@),
            r matches Ok(a) ==> a@ == s@,
    {
        match check_address(s) {
            Ok(()) => Ok(Address { encoded: s.to_owned() }),
            Err(e) => Err(e),
        }
    }

    /// The textual encoding.
    pub fn as_str(&self) -> (r: &str)
        ensures
            r@ == self@,
    {
        self.encoded.as_str()
    }

    /// Whether this address can receive funds on `network`.
    pub fn is_valid_for_network(&self, network: Network) -> (r: bool)
        ensures
            r == address_valid_for(self@, network),
    {
        proof {
            use_type_invariant(self);
        }
        valid_for_network(self.encoded.as_str(), network)
    }

    /// The output script that pays to this address.
    pub fn script_pubkey(&self) -> (r: Vec<u8>)
        ensures
            r@ == address_script(self@),
            r@.len() <= MAX_ADDRESS_SCRIPT_LEN,
    {
        proof {
            use_type_invariant(self);
        }
        script_of(self.encoded.as_str())
    }
}

} // verus!
