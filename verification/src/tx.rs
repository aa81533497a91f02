//! Construction of a value-transfer intent.
//!
//! An intent fixes the destination address and the transferred value in
//! base units; every network-dependent field (nonce, gas, chain id) is
//! left for the network layer to complete.

use vstd::prelude::*;

use crate::address::AccountAddress;

verus! {

/// A 256-bit amount of base units, as two 128-bit limbs.
pub struct Wei {
    /// The upper 128 bits.
    pub hi: u128,
    /// The lower 128 bits.
    pub lo: u128,
}

impl Wei {
    /// The amount as one unbounded integer.
    pub open spec fn value(&self) -> int {
        self.hi * 0x100000000000000000000000000000000 + self.lo
    }

    /// An amount that fits 128 bits.
    pub fn from_base_units(lo: u128) -> (r: Wei)
        ensures
            r.value() == lo,
    {
        Wei { hi: 0, lo }
    }

    /// An amount from both limbs.
    pub fn from_limbs(hi: u128, lo: u128) -> (r: Wei)
        ensures
            r.hi == hi,
            r.lo == lo,
            r.value() == hi * 0x100000000000000000000000000000000 + lo,
    {
        Wei { hi, lo }
    }
}

/// An unsigned transfer: destination and value, immutable once built.
pub struct TransactionIntent {
    /// The receiving account.
    pub to: AccountAddress,
    /// The transferred value in base units.
    pub value: Wei,
}

impl TransactionIntent {
    /// The destination is a well-formed address.
    pub open spec fn wf(&self) -> bool {
        self.to.wf()
    }
}

/// Builds the transfer intent for a destination and a value in base
/// units; all other transaction fields stay at protocol defaults.
pub fn create_eth_transaction(to: AccountAddress, value: Wei) -> (t: TransactionIntent)
    requires
        to.wf(),
    ensures
        t.to@ == to@,
        t.value == value,
        t.wf(),
{
    TransactionIntent { to, value }
}

} // verus!
