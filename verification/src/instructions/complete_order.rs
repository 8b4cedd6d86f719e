//! Completing: the admin completes a shipped order, and the store is paid
//! the escrowed subtotal.

use vstd::prelude::*;
use crate::address::Address;
use crate::error::SplurgeError;
use crate::escrow::{release, release_outcome};
use crate::events::OrderCompleted;
use crate::ledger::{Holder, Ledger, Mint};
use crate::state::config::{accepts, Config};
use crate::state::item::Item;
use crate::state::order::{Order, OrderStatus};
use crate::state::shopper::Shopper;

verus! {

/// The accounts of a completion.
#[derive(Clone, Debug, PartialEq, Eq)]
pub struct CompleteOrder {
    /// The signer, who must be the admin
    pub admin: Address,
    /// The shopper's authority
    pub authority: Address,
    pub config: Config,
    pub shopper_key: Address,
    pub shopper: Shopper,
    /// The address of the store, which owns the store's balance
    pub store_key: Address,
    pub item_key: Address,
    pub item: Item,
    pub order_key: Address,
    pub order: Order,
    pub payment_mint: Mint,
}

impl CompleteOrder {
    /// Why the accounts do not allow the completion, if they do not: the
    /// first of these that holds. Order and store must each have an address
    /// of its own, so that the escrow and the store's holder are neither each
    /// other nor the shopper's holder nor the treasury's.
    pub open spec fn refusal(&self) -> Option<SplurgeError> {
        if self.config.admin != self.admin {
            Some(SplurgeError::UnauthorizedAdmin)
        } else if self.shopper.authority != self.authority {
            Some(SplurgeError::InvalidShopperAuthority)
        } else if self.item.store != self.store_key {
            Some(SplurgeError::InvalidItemStore)
        } else if self.order.shopper != self.shopper_key {
            Some(SplurgeError::InvalidOrderShopper)
        } else if self.order.item != self.item_key {
            Some(SplurgeError::InvalidOrderItem)
        } else if self.order.payment_mint != self.payment_mint.key {
            Some(SplurgeError::InvalidOrderPaymentMint)
        } else if self.order.status == OrderStatus::Completed {
            Some(SplurgeError::OrderAlreadyCompleted)
        } else if self.order.status != OrderStatus::Shipping {
            Some(SplurgeError::OrderNotBeingShipped)
        } else if !accepts(self.config.accepted_mints@, self.payment_mint.key) {
            Some(SplurgeError::PaymentMintNotAccepted)
        } else if self.order_key == self.store_key || self.order_key == self.authority
            || self.order_key == self.config.treasury {
            Some(SplurgeError::InvalidOrderAddress)
        } else if self.store_key == self.authority || self.store_key == self.config.treasury {
            Some(SplurgeError::InvalidStoreAddress)
        } else {
            None
        }
    }

    /// What the completion comes to with the balances `balances` when the
    /// clock shows `now`: the order in its final state and the balances after
    /// the payout, or the first reason why it is refused.
    pub open spec fn outcome(&self, balances: Map<Holder, u64>, now: i64) -> Result<
        (Order, Map<Holder, u64>),
        SplurgeError,
    > {
        match self.refusal() {
            Some(e) => Err(e),
            None => match release_outcome(
                balances,
                Holder { owner: self.order_key, mint: self.payment_mint.key },
                Holder { owner: self.store_key, mint: self.payment_mint.key },
                self.order.payment_subtotal,
            ) {
                Err(e) => Err(e),
                Ok(paid) => {
                    let order = Order { status: OrderStatus::Completed, ..self.order };
                    match order.invariant_outcome(now) {
                        Err(e) => Err(e),
                        Ok(_) => Ok((order, paid)),
                    }
                },
            },
        }
    }

    /// Checks the accounts of a completion.
    fn check_accounts(&self) -> (r: Result<(), SplurgeError>)
        ensures
            r == (match self.refusal() {
                Some(e) => Err::<(), SplurgeError>(e),
                None => Ok::<(), SplurgeError>(()),
            }),
    {
        if self.config.admin != self.admin {
            return Err(SplurgeError::UnauthorizedAdmin);
        }
        if self.shopper.authority != self.authority {
            return Err(SplurgeError::InvalidShopperAuthority);
        }
        if self.item.store != self.store_key {
            return Err(SplurgeError::InvalidItemStore);
        }
        if self.order.shopper != self.shopper_key {
            return Err(SplurgeError::InvalidOrderShopper);
        }
        if self.order.item != self.item_key {
            return Err(SplurgeError::InvalidOrderItem);
        }
        if self.order.payment_mint != self.payment_mint.key {
            return Err(SplurgeError::InvalidOrderPaymentMint);
        }
        match OrderStatus::transition(self.order.status, OrderStatus::Completed) {
            Ok(_) => {},
            Err(e) => {
                return Err(e);
            },
        }
        match self.config.validate_mint(self.payment_mint.key) {
            Ok(_) => {},
            Err(e) => {
                return Err(e);
            },
        }
        if self.order_key == self.store_key || self.order_key == self.authority || self.order_key
            == self.config.treasury {
            return Err(SplurgeError::InvalidOrderAddress);
        }
        if self.store_key == self.authority || self.store_key == self.config.treasury {
            return Err(SplurgeError::InvalidStoreAddress);
        }
        Ok(())
    }

    /// Completes the order at the time `now`: it becomes `Completed`, the
    /// escrowed subtotal goes to the store, and the escrow is closed. Only the
    /// admin may do so, and only while the order is `Shipping`. On failure
    /// nothing has changed.
    pub fn handler(ctx: &mut CompleteOrder, ledger: &mut Ledger, now: i64) -> (r: Result<
        OrderCompleted,
        SplurgeError,
    >)
        ensures
            match old(ctx).outcome(old(ledger)@, now) {
                Ok((order, balances)) => {
                    &&& r == Ok::<OrderCompleted, SplurgeError>(
                        OrderCompleted { order: old(ctx).order_key, timestamp: now },
                    )
                    &&& final(ledger)@ == balances
                    &&& *final(ctx) == (CompleteOrder { order, ..*old(ctx) })
                },
                Err(e) => {
                    &&& r == Err::<OrderCompleted, SplurgeError>(e)
                    &&& final(ledger)@ == old(ledger)@
                    &&& *final(ctx) == *old(ctx)
                },
            },
    {
        match ctx.check_accounts() {
            Ok(_) => {},
            Err(e) => {
                return Err(e);
            },
        }
        let order = Order {
            shopper: ctx.order.shopper,
            item: ctx.order.item,
            timestamp: ctx.order.timestamp,
            status: OrderStatus::Completed,
            amount: ctx.order.amount,
            payment_subtotal: ctx.order.payment_subtotal,
            platform_fee: ctx.order.platform_fee,
            payment_mint: ctx.order.payment_mint,
            bump: ctx.order.bump,
        };
        let mut scratch = ledger.duplicate();
        match release(
            &mut scratch,
            ctx.order_key,
            ctx.store_key,
            ctx.payment_mint.key,
            ctx.order.payment_subtotal,
        ) {
            Ok(_) => {},
            Err(e) => {
                return Err(e);
            },
        }
        match order.check_invariant(now) {
            Ok(_) => {},
            Err(e) => {
                return Err(e);
            },
        }
        ctx.order = order;
        *ledger = scratch;
        Ok(OrderCompleted { order: ctx.order_key, timestamp: now })
    }
}

} // verus!
