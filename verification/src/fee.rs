//! Virtual size and fee arithmetic.
//!
//! A transaction is priced by its virtual size: its base size plus a quarter
//! of its witness bytes. Before signing, the witness bytes are not there yet,
//! so they are assumed from the kinds of the coins being spent.

use crate::tx::{tx_base_size, Transaction, MIN_BASE_SIZE};
use vstd::prelude::*;

verus! {

/// The largest virtual size that [`FeeRate::fee_for`] prices: 2^72.
pub const MAX_VIRTUAL_SIZE: u128 = 0x1_00_0000_0000_0000_0000;

/// No fee that [`FeeRate::fee_for`] computes reaches this: 2^127.
pub const FEE_LIMIT: u128 = 0x8000_0000_0000_0000_0000_0000_0000_0000;

/// The largest number of satoshis that a fee rate is written with: 2^53 - 1.
pub const MAX_RATE_SATS: u64 = 0x1F_FFFF_FFFF_FFFF;

/// The largest number of virtual bytes that a fee rate is written with: 2^127.
pub const MAX_RATE_VBYTES: u128 = 0x8000_0000_0000_0000_0000_0000_0000_0000;

/// A fee rate: so many satoshis for so many virtual bytes. Ten satoshis per
/// virtual byte is 10 for 1; one and a half is 3 for 2, or 1500 for 1000.
/// Every rate that a binary fraction of up to 53 digits writes, down to
/// 2^-127, is held exactly. Two rates are equal when they are written alike.
#[derive(Debug, Clone, Copy, PartialEq, Eq)]
pub struct FeeRate {
    sats: u64,
    vbytes: u128,
}

/// The virtual size of a transaction of `base_size` bytes without witness
/// data whose witness data takes `witness_size` bytes: the weight
/// `base_size * 4 + witness_size`, divided by four and rounded down.
pub open spec fn virtual_size(base_size: nat, witness_size: nat) -> nat {
    (base_size * 4 + witness_size) / 4
}

/// Computes [`virtual_size`].
pub fn compute_virtual_size(base_size: usize, witness_size: u128) -> (r: u128)
    requires
        witness_size <= MAX_VIRTUAL_SIZE,
    ensures
        r == virtual_size(base_size as nat, witness_size as nat),
        base_size <= r <= MAX_VIRTUAL_SIZE,
{
    let quarter: u128 = witness_size / 4;
    base_size as u128 + quarter
}

/// Estimates the virtual size that `tx` will have once its inputs carry
/// witnesses of `witness_size` bytes in all.
pub fn estimate_virtual_size(tx: &Transaction, witness_size: u128) -> (r: u128)
    requires
        witness_size <= MAX_VIRTUAL_SIZE,
    ensures
        r == virtual_size(tx_base_size(tx@), witness_size as nat),
        MIN_BASE_SIZE <= r <= MAX_VIRTUAL_SIZE,
{
    compute_virtual_size(tx.base_size(), witness_size)
}

impl FeeRate {
    #[verifier::type_invariant]
    spec fn in_range(self) -> bool {
        self.sats <= MAX_RATE_SATS && 1 <= self.vbytes <= MAX_RATE_VBYTES
    }

    /// The satoshis that the rate asks for every [`FeeRate::spec_vbytes`]
    /// virtual bytes.
    pub closed spec fn spec_sats(self) -> nat {
        self.sats as nat
    }

    /// The virtual bytes that the rate is stated for.
    pub closed spec fn spec_vbytes(self) -> nat {
        self.vbytes as nat
    }

    /// The fee for `vsize` virtual bytes at this rate: rate times size,
    /// rounded up to a whole satoshi.
    pub open spec fn fee(self, vsize: nat) -> nat {
        ((self.spec_sats() * vsize + self.spec_vbytes() - 1) / (self.spec_vbytes() as int)) as nat
    }

    /// The rate of `sats` satoshis for every `vbytes` virtual bytes, if it is
    /// one that can be held.
    pub fn new(sats: u64, vbytes: u128) -> (r: Option<FeeRate>)
        ensures
            r is Some == (sats <= MAX_RATE_SATS && 1 <= vbytes <= MAX_RATE_VBYTES),
            r matches Some(rate) ==> rate.spec_sats() == sats && rate.spec_vbytes() == vbytes,
    {
        if sats <= MAX_RATE_SATS && 1 <= vbytes && vbytes <= MAX_RATE_VBYTES {
            Some(FeeRate { sats, vbytes })
        } else {
            None
        }
    }

    /// The rate of `sat_per_vb` satoshis per virtual byte.
    pub fn from_sat_per_vb(sat_per_vb: u64) -> (r: Option<FeeRate>)
        ensures
            r is Some == (sat_per_vb <= MAX_RATE_SATS),
            r matches Some(rate) ==> rate.spec_sats() == sat_per_vb && rate.spec_vbytes() == 1,
    {
        FeeRate::new(sat_per_vb, 1)
    }

    /// The rate of `sat_per_kvb` satoshis per 1000 virtual bytes.
    pub fn from_sat_per_kvb(sat_per_kvb: u64) -> (r: Option<FeeRate>)
        ensures
            r is Some == (sat_per_kvb <= MAX_RATE_SATS),
            r matches Some(rate) ==> rate.spec_sats() == sat_per_kvb && rate.spec_vbytes() == 1000,
    {
        FeeRate::new(sat_per_kvb, 1000)
    }

    /// The satoshis that the rate asks for every [`FeeRate::vbytes`] virtual
    /// bytes.
    pub fn sats(&self) -> (r: u64)
        ensures
            r == self.spec_sats(),
            r <= MAX_RATE_SATS,
    {
        proof {
            use_type_invariant(self);
        }
        self.sats
    }

    /// The virtual bytes that the rate is stated for.
    pub fn vbytes(&self) -> (r: u128)
        ensures
            r == self.spec_vbytes(),
            1 <= r <= MAX_RATE_VBYTES,
    {
        proof {
            use_type_invariant(self);
        }
        self.vbytes
    }

    /// Computes [`FeeRate::fee`].
    pub fn fee_for(&self, vsize: u128) -> (r: u128)
        requires
            vsize <= MAX_VIRTUAL_SIZE,
        ensures
            r == self.fee(vsize as nat),
            r < FEE_LIMIT,
            self.spec_sats() > 0 && vsize > 0 ==> r > 0,
    {
        let sats: u128 = self.sats() as u128;
        let vbytes: u128 = self.vbytes();
        assert(sats * vsize <= 0x1F_FFFF_FFFF_FFFF * 0x1_00_0000_0000_0000_0000) by (nonlinear_arith)
            requires
                sats <= 0x1F_FFFF_FFFF_FFFF,
                vsize <= 0x1_00_0000_0000_0000_0000,
        ;
        let product: u128 = sats * vsize;
        assert(sats > 0 && vsize > 0 ==> product > 0) by (nonlinear_arith)
            requires
                product == sats * vsize,
        ;
        let whole: u128 = product / vbytes;
        let rest: u128 = product % vbytes;
        assert(whole <= product) by (nonlinear_arith)
            requires
                whole == product / vbytes,
                vbytes >= 1,
        ;
        proof {
            vstd::arithmetic::div_mod::lemma_fundamental_div_mod(product as int, vbytes as int);
            assert(vbytes * whole == whole * vbytes) by (nonlinear_arith);
            assert(product > 0 && rest == 0 ==> whole > 0) by (nonlinear_arith)
                requires
                    product == whole * vbytes + rest,
            ;
        }
        assert((product + vbytes - 1) / (vbytes as int) == if rest == 0 {
            whole as int
        } else {
            whole + 1
        }) by (nonlinear_arith)
            requires
                product == whole * vbytes + rest,
                0 <= rest < vbytes,
        ;
        if rest == 0 {
            whole
        } else {
            whole + 1
        }
    }
}

} // verus!
