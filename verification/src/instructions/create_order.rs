//! Buying: an order is created, its subtotal goes into escrow and its fee to
//! the treasury, and the item's inventory shrinks.

use vstd::prelude::*;
use crate::address::Address;
use crate::error::SplurgeError;
use crate::events::OrderCreated;
use crate::fees::{fee_of, platform_fee, subtotal, subtotal_of};
use crate::escrow::{fund, fund_outcome};
use crate::ledger::{Holder, Ledger, Mint};
use crate::oracle::{oracle_price, reading_outcome, PriceUpdateV2};
use crate::state::config::{accepts, feed_of, Config};
use crate::state::item::Item;
use crate::state::order::{Order, OrderStatus};
use crate::state::shopper::Shopper;

verus! {

/// The accounts of a purchase.
#[derive(Clone, Debug, PartialEq, Eq)]
pub struct CreateOrder {
    /// The shopper's authority, who signs and pays
    pub authority: Address,
    /// The address that collects the platform's fees
    pub treasury: Address,
    pub config: Config,
    pub shopper_key: Address,
    pub shopper: Shopper,
    pub store_key: Address,
    pub item_key: Address,
    pub item: Item,
    /// The address of the order to be created, which owns the escrow
    pub order_key: Address,
    pub order_bump: u8,
    pub price_update_v2: PriceUpdateV2,
    pub payment_mint: Mint,
}

impl CreateOrder {
    /// The holder that pays.
    pub open spec fn payer(&self) -> Holder {
        Holder { owner: self.authority, mint: self.payment_mint.key }
    }

    /// The escrow of the order.
    pub open spec fn escrow(&self) -> Holder {
        Holder { owner: self.order_key, mint: self.payment_mint.key }
    }

    /// The holder that collects the fee.
    pub open spec fn treasury_holder(&self) -> Holder {
        Holder { owner: self.treasury, mint: self.payment_mint.key }
    }

    /// Why the accounts do not allow a purchase of `amount` units, if they do
    /// not: the first of these that holds. The order must have an address of
    /// its own, so that its escrow is neither the payer's holder nor the
    /// treasury's.
    pub open spec fn refusal(&self, amount: u32) -> Option<SplurgeError> {
        if self.config.treasury != self.treasury {
            Some(SplurgeError::InvalidTreasury)
        } else if self.config.is_paused {
            Some(SplurgeError::PlatformPaused)
        } else if self.shopper.authority != self.authority {
            Some(SplurgeError::InvalidShopperAuthority)
        } else if self.item.store != self.store_key {
            Some(SplurgeError::InvalidItemStore)
        } else if !accepts(self.config.accepted_mints@, self.payment_mint.key) {
            Some(SplurgeError::PaymentMintNotAccepted)
        } else if feed_of(self.config.accepted_mints@, self.payment_mint.key) != Some(
            self.price_update_v2.key,
        ) {
            Some(SplurgeError::InvalidPriceUpdateV2)
        } else if amount == 0 {
            Some(SplurgeError::InvalidAmount)
        } else if self.order_key == self.authority || self.order_key == self.treasury {
            Some(SplurgeError::InvalidOrderAddress)
        } else {
            None
        }
    }

    /// The order that a purchase with the given subtotal and fee creates.
    pub open spec fn new_order(&self, amount: u32, timestamp: i64, subtotal: u64, fee: u64)
        -> Order {
        Order {
            shopper: self.shopper_key,
            item: self.item_key,
            timestamp,
            status: OrderStatus::Pending,
            amount,
            payment_subtotal: subtotal,
            platform_fee: fee,
            payment_mint: self.payment_mint.key,
            bump: self.order_bump,
        }
    }

    /// What a purchase of `amount` units at the time `timestamp` comes to,
    /// when the clock shows `now`: the new order, the inventory that is left,
    /// and the new balances; or the first reason why it is refused.
    pub open spec fn outcome(
        &self,
        balances: Map<Holder, u64>,
        amount: u32,
        timestamp: i64,
        now: i64,
    ) -> Result<(Order, u32, Map<Holder, u64>), SplurgeError> {
        if let Some(e) = self.refusal(amount) {
            Err(e)
        } else {
            match reading_outcome(self.price_update_v2.price_message, timestamp as int) {
                Err(e) => Err(e),
                Ok(price) => {
                    let subtotal = subtotal_of(amount as int, self.item.price as int, price);
                    let fee = fee_of(subtotal, self.config.order_fee_bps as int);
                    if subtotal > u64::MAX || fee > u64::MAX {
                        Err(SplurgeError::MathOverflow)
                    } else {
                        let order = self.new_order(amount, timestamp, subtotal as u64, fee as u64);
                        match fund_outcome(
                            balances,
                            self.payer(),
                            self.escrow(),
                            self.treasury_holder(),
                            subtotal as u64,
                            fee as u64,
                        ) {
                            Err(e) => Err(e),
                            Ok(paid) => if self.item.inventory_count < amount {
                                Err(SplurgeError::InsufficientInventory)
                            } else if !self.item.valid() {
                                Err(SplurgeError::InvalidAddress)
                            } else {
                                match order.invariant_outcome(now) {
                                    Err(e) => Err(e),
                                    Ok(_) => Ok(
                                        (order, (self.item.inventory_count - amount) as u32, paid),
                                    ),
                                }
                            },
                        }
                    }
                },
            }
        }
    }

    /// Checks the accounts of a purchase.
    fn check_accounts(&self, amount: u32) -> (r: Result<(), SplurgeError>)
        ensures
            r == (match self.refusal(amount) {
                Some(e) => Err::<(), SplurgeError>(e),
                None => Ok::<(), SplurgeError>(()),
            }),
    {
        if self.config.treasury != self.treasury {
            return Err(SplurgeError::InvalidTreasury);
        }
        if self.config.is_paused {
            return Err(SplurgeError::PlatformPaused);
        }
        if self.shopper.authority != self.authority {
            return Err(SplurgeError::InvalidShopperAuthority);
        }
        if self.item.store != self.store_key {
            return Err(SplurgeError::InvalidItemStore);
        }
        let feed = match self.config.oracle_for(self.payment_mint.key) {
            Ok(feed) => feed,
            Err(e) => {
                return Err(e);
            },
        };
        if feed != self.price_update_v2.key {
            return Err(SplurgeError::InvalidPriceUpdateV2);
        }
        if amount == 0 {
            return Err(SplurgeError::InvalidAmount);
        }
        if self.order_key == self.authority || self.order_key == self.treasury {
            return Err(SplurgeError::InvalidOrderAddress);
        }
        Ok(())
    }

    /// Creates an order of `amount` units of the item at the time
    /// `timestamp`, while the clock shows `now`. On success the subtotal has
    /// moved from the payer into the order's escrow, the fee from the payer
    /// to the treasury, and the inventory is `amount` smaller. On failure
    /// nothing has changed.
    pub fn handler(ctx: &mut CreateOrder, ledger: &mut Ledger, amount: u32, timestamp: i64, now: i64)
        -> (r: Result<(Order, OrderCreated), SplurgeError>)
        ensures
            match old(ctx).outcome(old(ledger)@, amount, timestamp, now) {
                Ok((order, left, balances)) => {
                    &&& r == Ok::<(Order, OrderCreated), SplurgeError>(
                        (order, OrderCreated { order: old(ctx).order_key, timestamp }),
                    )
                    &&& final(ledger)@ == balances
                    &&& *final(ctx) == (CreateOrder {
                        item: Item { inventory_count: left, ..old(ctx).item },
                        ..*old(ctx)
                    })
                },
                Err(e) => {
                    &&& r == Err::<(Order, OrderCreated), SplurgeError>(e)
                    &&& final(ledger)@ == old(ledger)@
                    &&& *final(ctx) == *old(ctx)
                },
            },
    {
        match ctx.check_accounts(amount) {
            Ok(_) => {},
            Err(e) => {
                return Err(e);
            },
        }
        let price = match oracle_price(&ctx.price_update_v2.price_message, timestamp) {
            Ok(p) => p,
            Err(e) => {
                return Err(e);
            },
        };
        let payment_subtotal = match subtotal(amount, ctx.item.price, &price) {
            Ok(s) => s,
            Err(e) => {
                return Err(e);
            },
        };
        let fee = match platform_fee(payment_subtotal, ctx.config.order_fee_bps) {
            Ok(f) => f,
            Err(e) => {
                return Err(e);
            },
        };
        let order = Order {
            bump: ctx.order_bump,
            shopper: ctx.shopper_key,
            item: ctx.item_key,
            timestamp,
            status: OrderStatus::default(),
            amount,
            payment_subtotal,
            platform_fee: fee,
            payment_mint: ctx.payment_mint.key,
        };
        let mut scratch = ledger.duplicate();
        match fund(
            &mut scratch,
            ctx.authority,
            ctx.order_key,
            ctx.treasury,
            ctx.payment_mint.key,
            payment_subtotal,
            fee,
        ) {
            Ok(_) => {},
            Err(e) => {
                return Err(e);
            },
        }
        if ctx.item.inventory_count < amount {
            return Err(SplurgeError::InsufficientInventory);
        }
        match ctx.item.check_invariant() {
            Ok(_) => {},
            Err(e) => {
                return Err(e);
            },
        }
        match order.check_invariant(now) {
            Ok(_) => {},
            Err(e) => {
                return Err(e);
            },
        }
        ctx.item.inventory_count = ctx.item.inventory_count - amount;
        *ledger = scratch;
        Ok((order, OrderCreated { order: ctx.order_key, timestamp }))
    }
}

} // verus!
