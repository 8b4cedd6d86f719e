//! Cancelling: the admin cancels an order that is not final yet, and the
//! shopper gets subtotal and fee back.

use vstd::prelude::*;
use crate::address::Address;
use crate::error::SplurgeError;
use crate::escrow::{refund, refund_outcome};
use crate::events::OrderCancelled;
use crate::ledger::{Holder, Ledger, Mint};
use crate::state::config::Config;
use crate::state::order::{Order, OrderStatus};
use crate::state::shopper::Shopper;

verus! {

/// The accounts of a cancellation.
#[derive(Clone, Debug, PartialEq, Eq)]
pub struct CancelOrder {
    /// The signer, who must be the admin
    pub admin: Address,
    /// The address that collected the platform's fee
    pub treasury: Address,
    /// The shopper's authority, who is paid back
    pub authority: Address,
    pub config: Config,
    pub shopper_key: Address,
    pub shopper: Shopper,
    pub order_key: Address,
    pub order: Order,
    pub payment_mint: Mint,
}

/// Why the accounts do not allow `order` to be cancelled, if they do not: the
/// first of these that holds. The order must have an address of its own, so
/// that its escrow is neither the shopper's holder nor the treasury's.
pub open spec fn cancellation_refusal(
    config: Config,
    admin: Address,
    treasury: Address,
    authority: Address,
    shopper_key: Address,
    shopper: Shopper,
    order_key: Address,
    order: Order,
    mint: Address,
) -> Option<SplurgeError> {
    if config.admin != admin {
        Some(SplurgeError::UnauthorizedAdmin)
    } else if config.treasury != treasury {
        Some(SplurgeError::InvalidTreasury)
    } else if shopper.authority != authority {
        Some(SplurgeError::InvalidShopperAuthority)
    } else if order.shopper != shopper_key {
        Some(SplurgeError::InvalidOrderShopper)
    } else if order.status.is_final() {
        Some(SplurgeError::OrderAlreadyFinalized)
    } else if order.payment_mint != mint {
        Some(SplurgeError::InvalidOrderPaymentMint)
    } else if order_key == authority || order_key == treasury {
        Some(SplurgeError::InvalidOrderAddress)
    } else {
        None
    }
}

/// What cancelling `order` comes to: the order in its final state and the
/// balances after the refund, or the first reason why it is refused.
pub open spec fn cancellation_outcome(
    config: Config,
    admin: Address,
    treasury: Address,
    authority: Address,
    shopper_key: Address,
    shopper: Shopper,
    order_key: Address,
    order: Order,
    mint: Address,
    balances: Map<Holder, u64>,
) -> Result<(Order, Map<Holder, u64>), SplurgeError> {
    match cancellation_refusal(
        config,
        admin,
        treasury,
        authority,
        shopper_key,
        shopper,
        order_key,
        order,
        mint,
    ) {
        Some(e) => Err(e),
        None => match refund_outcome(
            balances,
            Holder { owner: order_key, mint },
            Holder { owner: authority, mint },
            Holder { owner: treasury, mint },
            order.payment_subtotal,
            order.platform_fee,
        ) {
            Err(e) => Err(e),
            Ok(refunded) => Ok((Order { status: OrderStatus::Cancelled, ..order }, refunded)),
        },
    }
}

/// Cancels `order` and pays subtotal and fee back to `authority`. On failure
/// the ledger is as it was.
pub fn cancel(
    config: &Config,
    admin: Address,
    treasury: Address,
    authority: Address,
    shopper_key: Address,
    shopper: &Shopper,
    order_key: Address,
    order: &Order,
    mint: Address,
    ledger: &mut Ledger,
) -> (r: Result<Order, SplurgeError>)
    ensures
        match cancellation_outcome(
            *config,
            admin,
            treasury,
            authority,
            shopper_key,
            *shopper,
            order_key,
            *order,
            mint,
            old(ledger)@,
        ) {
            Ok((cancelled, balances)) => r == Ok::<Order, SplurgeError>(cancelled)
                && final(ledger)@ == balances,
            Err(e) => r == Err::<Order, SplurgeError>(e) && final(ledger)@ == old(ledger)@,
        },
{
    if config.admin != admin {
        return Err(SplurgeError::UnauthorizedAdmin);
    }
    if config.treasury != treasury {
        return Err(SplurgeError::InvalidTreasury);
    }
    if shopper.authority != authority {
        return Err(SplurgeError::InvalidShopperAuthority);
    }
    if order.shopper != shopper_key {
        return Err(SplurgeError::InvalidOrderShopper);
    }
    if order.status == OrderStatus::Cancelled || order.status == OrderStatus::Completed {
        return Err(SplurgeError::OrderAlreadyFinalized);
    }
    if order.payment_mint != mint {
        return Err(SplurgeError::InvalidOrderPaymentMint);
    }
    if order_key == authority || order_key == treasury {
        return Err(SplurgeError::InvalidOrderAddress);
    }
    match refund(
        ledger,
        order_key,
        authority,
        treasury,
        mint,
        order.payment_subtotal,
        order.platform_fee,
    ) {
        Ok(_) => {},
        Err(e) => {
            return Err(e);
        },
    }
    Ok(
        Order {
            shopper: order.shopper,
            item: order.item,
            timestamp: order.timestamp,
            status: OrderStatus::Cancelled,
            amount: order.amount,
            payment_subtotal: order.payment_subtotal,
            platform_fee: order.platform_fee,
            payment_mint: order.payment_mint,
            bump: order.bump,
        },
    )
}

impl CancelOrder {
    /// What the cancellation comes to with the balances `balances`.
    pub open spec fn outcome(&self, balances: Map<Holder, u64>) -> Result<
        (Order, Map<Holder, u64>),
        SplurgeError,
    > {
        cancellation_outcome(
            self.config,
            self.admin,
            self.treasury,
            self.authority,
            self.shopper_key,
            self.shopper,
            self.order_key,
            self.order,
            self.payment_mint.key,
            balances,
        )
    }

    /// Cancels the order at the time `now`: it becomes `Cancelled`, the
    /// escrowed subtotal and the fee go back to the shopper, and the escrow is
    /// closed. Only the admin may do so, and only while the order is
    /// `Pending` or `Shipping`. On failure nothing has changed.
    pub fn handler(ctx: &mut CancelOrder, ledger: &mut Ledger, now: i64) -> (r: Result<
        OrderCancelled,
        SplurgeError,
    >)
        ensures
            match old(ctx).outcome(old(ledger)@) {
                Ok((order, balances)) => {
                    &&& r == Ok::<OrderCancelled, SplurgeError>(
                        OrderCancelled { order: old(ctx).order_key, timestamp: now },
                    )
                    &&& final(ledger)@ == balances
                    &&& *final(ctx) == (CancelOrder { order, ..*old(ctx) })
                },
                Err(e) => {
                    &&& r == Err::<OrderCancelled, SplurgeError>(e)
                    &&& final(ledger)@ == old(ledger)@
                    &&& *final(ctx) == *old(ctx)
                },
            },
    {
        match cancel(
            &ctx.config,
            ctx.admin,
            ctx.treasury,
            ctx.authority,
            ctx.shopper_key,
            &ctx.shopper,
            ctx.order_key,
            &ctx.order,
            ctx.payment_mint.key,
            ledger,
        ) {
            Ok(order) => {
                ctx.order = order;
                Ok(OrderCancelled { order: ctx.order_key, timestamp: now })
            },
            Err(e) => Err(e),
        }
    }
}

} // verus!
