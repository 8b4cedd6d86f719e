//! An order and the states it goes through.

use vstd::prelude::*;
use crate::address::Address;
use crate::error::SplurgeError;

verus! {

/// The state of an order. `Pending` is where every order starts; `Cancelled`
/// and `Completed` are final.
#[derive(Clone, Copy, Debug, PartialEq, Eq, Structural)]
pub enum OrderStatus {
    Pending,
    Shipping,
    Cancelled,
    Completed,
}

impl Default for OrderStatus {
    /// The state of a new order.
    fn default() -> (s: OrderStatus)
        ensures
            s == OrderStatus::Pending,
    {
        OrderStatus::Pending
    }
}

impl OrderStatus {
    /// Whether no operation can change the state any more.
    pub open spec fn is_final(self) -> bool {
        self == OrderStatus::Cancelled || self == OrderStatus::Completed
    }

    /// The place of a state in the order in which the states are declared.
    pub open spec fn index_of(self) -> u8 {
        match self {
            OrderStatus::Pending => 0,
            OrderStatus::Shipping => 1,
            OrderStatus::Cancelled => 2,
            OrderStatus::Completed => 3,
        }
    }

    /// The number that stands for the state in a stored record.
    pub fn to_u8(&self) -> (n: u8)
        ensures
            n == self.index_of(),
    {
        match self {
            OrderStatus::Pending => 0,
            OrderStatus::Shipping => 1,
            OrderStatus::Cancelled => 2,
            OrderStatus::Completed => 3,
        }
    }

    /// The state that a number stands for, if it stands for one.
    pub fn from_u8(n: u8) -> (s: Option<OrderStatus>)
        ensures
            n <= 3 ==> s is Some && s->0.index_of() == n,
            n > 3 ==> s is None,
    {
        match n {
            0 => Some(OrderStatus::Pending),
            1 => Some(OrderStatus::Shipping),
            2 => Some(OrderStatus::Cancelled),
            3 => Some(OrderStatus::Completed),
            _ => None,
        }
    }

    /// Where a request to move an order to the state `requested` leads from
    /// the state `current`: `Pending` can go to `Shipping`, `Shipping` to
    /// `Completed`, both to `Cancelled`, and nothing else is allowed.
    pub open spec fn transition_outcome(current: OrderStatus, requested: OrderStatus) -> Result<
        OrderStatus,
        SplurgeError,
    > {
        match requested {
            OrderStatus::Pending => if current.is_final() {
                Err(SplurgeError::OrderAlreadyFinalized)
            } else {
                Err(SplurgeError::InvalidOrderStatus)
            },
            OrderStatus::Shipping => if current.is_final() {
                Err(SplurgeError::OrderAlreadyFinalized)
            } else if current == OrderStatus::Pending {
                Ok(OrderStatus::Shipping)
            } else {
                Err(SplurgeError::OrderNotPending)
            },
            OrderStatus::Cancelled => if current.is_final() {
                Err(SplurgeError::OrderAlreadyFinalized)
            } else {
                Ok(OrderStatus::Cancelled)
            },
            OrderStatus::Completed => if current == OrderStatus::Completed {
                Err(SplurgeError::OrderAlreadyCompleted)
            } else if current == OrderStatus::Shipping {
                Ok(OrderStatus::Completed)
            } else {
                Err(SplurgeError::OrderNotBeingShipped)
            },
        }
    }

    /// The state that follows `current` when `requested` is asked for, or the
    /// reason why the order cannot go there.
    pub fn transition(current: OrderStatus, requested: OrderStatus) -> (r: Result<
        OrderStatus,
        SplurgeError,
    >)
        ensures
            r == OrderStatus::transition_outcome(current, requested),
    {
        let finalized = current == OrderStatus::Cancelled || current == OrderStatus::Completed;
        match requested {
            OrderStatus::Pending => {
                if finalized {
                    Err(SplurgeError::OrderAlreadyFinalized)
                } else {
                    Err(SplurgeError::InvalidOrderStatus)
                }
            },
            OrderStatus::Shipping => {
                if finalized {
                    Err(SplurgeError::OrderAlreadyFinalized)
                } else if current == OrderStatus::Pending {
                    Ok(OrderStatus::Shipping)
                } else {
                    Err(SplurgeError::OrderNotPending)
                }
            },
            OrderStatus::Cancelled => {
                if finalized {
                    Err(SplurgeError::OrderAlreadyFinalized)
                } else {
                    Ok(OrderStatus::Cancelled)
                }
            },
            OrderStatus::Completed => {
                if current == OrderStatus::Completed {
                    Err(SplurgeError::OrderAlreadyCompleted)
                } else if current == OrderStatus::Shipping {
                    Ok(OrderStatus::Completed)
                } else {
                    Err(SplurgeError::OrderNotBeingShipped)
                }
            },
        }
    }
}

/// An order: what a shopper bought, for how much, and how far it has come.
#[derive(Clone, Copy, Debug, PartialEq, Eq, Structural)]
pub struct Order {
    /// Address of the shopper account
    pub shopper: Address,
    /// Address of the item account
    pub item: Address,
    /// Unix time of order creation
    pub timestamp: i64,
    /// Order status
    pub status: OrderStatus,
    /// Amount of item purchased
    pub amount: u32,
    /// Payment subtotal in atomic units of mint
    pub payment_subtotal: u64,
    /// Platform fee in atomic units of mint
    pub platform_fee: u64,
    /// Address of stablecoin mint used for payment
    pub payment_mint: Address,
    /// Bump used for seed derivation
    pub bump: u8,
}

impl Order {
    /// The number of bytes that an order takes when stored.
    pub const INIT_SPACE: usize = 126;

    /// What the check of an order at the time `now` finds.
    pub open spec fn invariant_outcome(&self, now: i64) -> Result<(), SplurgeError> {
        if self.shopper == Address::null() || self.item == Address::null() || self.payment_mint
            == Address::null() {
            Err(SplurgeError::InvalidAddress)
        } else if now < self.timestamp {
            Err(SplurgeError::InvalidTimestamp)
        } else {
            Ok(())
        }
    }

    /// Checks that the record may be stored at the time `now`: none of its
    /// addresses is null, and it was not created in the future.
    pub fn check_invariant(&self, now: i64) -> (r: Result<(), SplurgeError>)
        ensures
            r == self.invariant_outcome(now),
    {
        if self.shopper.is_default() {
            return Err(SplurgeError::InvalidAddress);
        }
        if self.item.is_default() {
            return Err(SplurgeError::InvalidAddress);
        }
        if self.payment_mint.is_default() {
            return Err(SplurgeError::InvalidAddress);
        }
        if now < self.timestamp {
            return Err(SplurgeError::InvalidTimestamp);
        }
        Ok(())
    }
}

} // verus!
