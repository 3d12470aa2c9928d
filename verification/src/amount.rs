//! Monetary values: satoshi amounts and their exact whole-coin reading.

use vstd::prelude::*;

verus! {

/// Satoshis in one whole coin.
pub const SATS_PER_COIN: u64 = 100_000_000;

/// An amount of money in satoshis, the minimal unit.
#[derive(Debug, Clone, Copy, PartialEq, Eq, Structural)]
pub struct Amount {
    pub sat: u64,
}

impl View for Amount {
    type V = nat;

    open spec fn view(&self) -> nat {
        self.sat as nat
    }
}

impl Amount {
    /// The zero amount.
    pub fn zero() -> (r: Amount)
        ensures
            r@ == 0,
    {
        Amount { sat: 0 }
    }

    /// The amount of `sat` satoshis.
    pub fn from_sat(sat: u64) -> (r: Amount)
        ensures
            r@ == sat,
    {
        Amount { sat }
    }

    /// This amount in satoshis.
    pub fn to_sat(self) -> (r: u64)
        ensures
            r == self@,
    {
        self.sat
    }

    /// This amount in whole-coin units, exactly.
    pub fn to_btc(self) -> (r: Btc)
        ensures
            r == Btc::of_sats(self@),
    {
        Btc::from_sat(self.sat as u128)
    }
}

/// The standard library's reason for refusing a string as a number. It is
/// carried to the caller unread.
#[verifier::external_type_specification]
#[verifier::external_body]
pub struct ExParseIntError(std::num::ParseIntError);

/// Whether `c` is one of the digits `0` to `9`.
pub open spec fn is_decimal_digit(c: char) -> bool {
    '0' as u32 <= c as u32 <= '9' as u32
}

/// The number that a string of decimal digits writes.
pub open spec fn digits_value(digits: Seq<char>) -> nat
    decreases digits.len(),
{
    if digits.len() == 0 {
        0
    } else {
        digits_value(digits.drop_last()) * 10 + (digits.last() as u32 - '0' as u32) as nat
    }
}

/// Whether `digits` holds decimal digits only.
pub open spec fn all_decimal_digits(digits: Seq<char>) -> bool {
    forall|i: int| 0 <= i < digits.len() ==> is_decimal_digit(#[trigger] digits[i])
}

/// What is left of `s` without a leading `+`.
pub open spec fn without_plus_sign(s: Seq<char>) -> Seq<char> {
    if s.len() > 0 && s[0] == '+' {
        s.drop_first()
    } else {
        s
    }
}

/// The 64-bit number that `s` writes in decimal: an optional `+`, then one
/// or more digits and nothing else, naming a number that fits.
pub open spec fn decimal_u64(s: Seq<char>) -> Option<u64> {
    let digits = without_plus_sign(s);
    if digits.len() > 0 && all_decimal_digits(digits) && digits_value(digits) <= u64::MAX {
        Some(digits_value(digits) as u64)
    } else {
        None
    }
}

/// Calls `str::parse::<u64>`. The standard library reads an optional `+`
/// sign followed by decimal digits only, and fails on an empty string, on
/// any other character and on a number that does not fit.
#[verifier::external_body]
fn parse_u64(s: &str) -> (r: Result<u64, std::num::ParseIntError>)
    ensures
        r.is_ok() == decimal_u64(s@).is_some(),
        r matches Ok(v) ==> decimal_u64(s@) == Some(v),
{
    s.parse::<u64>()
}

impl Amount {
    /// Reads an amount written as a decimal number of satoshis.
    pub fn from_str_in_sat(s: &str) -> (r: Result<Amount, std::num::ParseIntError>)
        ensures
            r.is_ok() == decimal_u64(s@).is_some(),
            r matches Ok(a) ==> decimal_u64(s@) == Some(a.sat),
    {
        match parse_u64(s) {
            Ok(sat) => Ok(Amount::from_sat(sat)),
            Err(e) => Err(e),
        }
    }
}

/// A value in whole-coin units, kept exact: `coins` whole coins and `sats`
/// hundred-millionths of a coin on top of them.
#[derive(Debug, Clone, Copy, PartialEq, Eq, Structural)]
pub struct Btc {
    pub coins: u128,
    pub sats: u32,
}

impl Btc {
    /// The fractional part is less than one whole coin.
    pub open spec fn wf(self) -> bool {
        self.sats < SATS_PER_COIN
    }

    /// The value in satoshis.
    pub open spec fn as_sats(self) -> nat {
        (self.coins * SATS_PER_COIN + self.sats) as nat
    }

    /// The whole-coin reading of `sats` satoshis.
    pub open spec fn of_sats(sats: nat) -> Btc {
        Btc { coins: (sats / SATS_PER_COIN as nat) as u128, sats: (sats % SATS_PER_COIN as nat) as u32 }
    }

    /// Splits a satoshi count into whole coins and the remainder.
    pub fn from_sat(sats: u128) -> (r: Btc)
        ensures
            r == Btc::of_sats(sats as nat),
            r.wf(),
            r.as_sats() == sats,
    {
        let coins: u128 = sats / 100_000_000;
        let rest: u128 = sats % 100_000_000;
        Btc { coins, sats: rest as u32 }
    }
}

} // verus!
