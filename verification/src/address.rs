//! Addresses of accounts on the ledger.

use vstd::prelude::*;

verus! {

/// The address of an account: 256 bits, held as two halves. The address whose
/// bits are all zero is the null address, which names no account.
#[derive(Clone, Copy, Debug, PartialEq, Eq, Structural, Hash)]
pub struct Address {
    pub hi: u128,
    pub lo: u128,
}

impl Address {
    /// The null address.
    pub open spec fn null() -> Address {
        Address { hi: 0, lo: 0 }
    }

    /// The address with the given halves.
    pub fn new(hi: u128, lo: u128) -> (a: Address)
        ensures
            a == (Address { hi, lo }),
    {
        Address { hi, lo }
    }

    /// Whether this is the null address.
    pub fn is_default(&self) -> (r: bool)
        ensures
            r == (*self == Address::null()),
    {
        self.hi == 0 && self.lo == 0
    }
}

impl Default for Address {
    /// The null address.
    fn default() -> (a: Address)
        ensures
            a == Address::null(),
    {
        Address { hi: 0, lo: 0 }
    }
}

} // verus!
