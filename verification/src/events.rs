//! What the operations announce to those who follow the ledger.

use vstd::prelude::*;
use crate::address::Address;

verus! {

/// A store was set up.
#[derive(Clone, Copy, Debug, PartialEq, Eq, Structural)]
pub struct StoreInitialized {
    pub store: Address,
    pub authority: Address,
    pub timestamp: i64,
}

/// A shopper was set up.
#[derive(Clone, Copy, Debug, PartialEq, Eq, Structural)]
pub struct ShopperInitialized {
    pub shopper: Address,
    pub authority: Address,
    pub timestamp: i64,
}

/// An item was put on offer.
#[derive(Clone, Copy, Debug, PartialEq, Eq, Structural)]
pub struct ItemListed {
    pub item: Address,
    pub timestamp: i64,
}

/// An order was created and paid into escrow.
#[derive(Clone, Copy, Debug, PartialEq, Eq, Structural)]
pub struct OrderCreated {
    pub order: Address,
    pub timestamp: i64,
}

/// An order was handed to shipping.
#[derive(Clone, Copy, Debug, PartialEq, Eq, Structural)]
pub struct OrderShipped {
    pub order: Address,
    pub timestamp: i64,
}

/// An order was cancelled and refunded.
#[derive(Clone, Copy, Debug, PartialEq, Eq, Structural)]
pub struct OrderCancelled {
    pub order: Address,
    pub timestamp: i64,
}

/// An order was completed and paid out.
#[derive(Clone, Copy, Debug, PartialEq, Eq, Structural)]
pub struct OrderCompleted {
    pub order: Address,
    pub timestamp: i64,
}

} // verus!
