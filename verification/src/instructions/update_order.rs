//! Moving an order on by naming the state it should go to: to shipping, or
//! to cancelled. Completion has an operation of its own.

use vstd::prelude::*;
use crate::address::Address;
use crate::error::SplurgeError;
use crate::events::{OrderCancelled, OrderShipped};
use crate::instructions::cancel_order::{cancel, cancellation_outcome};
use crate::instructions::ship_order::{ship, shipping_outcome, CompletionTask};
use crate::ledger::{Holder, Ledger, Mint};
use crate::state::config::Config;
use crate::state::order::{Order, OrderStatus};
use crate::state::shopper::Shopper;

verus! {

/// The accounts of an update.
#[derive(Clone, Debug, PartialEq, Eq)]
pub struct UpdateOrder {
    /// The signer, who must be the admin
    pub admin: Address,
    /// The address that collected the platform's fee
    pub treasury: Address,
    /// The shopper's authority, who is paid back on cancellation
    pub authority: Address,
    pub config: Config,
    pub shopper_key: Address,
    pub shopper: Shopper,
    pub order_key: Address,
    pub order: Order,
    pub payment_mint: Mint,
    /// Seconds after which the completion of a shipped order is due
    pub completion_delay: u32,
}

/// What an update has done.
#[derive(Clone, Copy, Debug, PartialEq, Eq, Structural)]
pub enum OrderUpdate {
    Shipped(OrderShipped, CompletionTask),
    Cancelled(OrderCancelled),
}

impl UpdateOrder {
    /// What the update to `status` comes to with the balances `balances` at
    /// the time `now`: the order in its new state, the new balances and what
    /// is announced; or the first reason why it is refused.
    pub open spec fn outcome(
        &self,
        balances: Map<Holder, u64>,
        status: OrderStatus,
        task_id: u16,
        now: i64,
    ) -> Result<(Order, Map<Holder, u64>, OrderUpdate), SplurgeError> {
        if self.config.admin != self.admin {
            Err(SplurgeError::UnauthorizedAdmin)
        } else if self.order.status.is_final() {
            Err(SplurgeError::OrderAlreadyFinalized)
        } else {
            match status {
                OrderStatus::Shipping => match shipping_outcome(
                    self.config,
                    self.admin,
                    self.order,
                    self.completion_delay,
                    task_id,
                    now,
                ) {
                    Err(e) => Err(e),
                    Ok((order, task)) => Ok(
                        (
                            order,
                            balances,
                            OrderUpdate::Shipped(
                                OrderShipped { order: self.order_key, timestamp: now },
                                task,
                            ),
                        ),
                    ),
                },
                OrderStatus::Cancelled => match cancellation_outcome(
                    self.config,
                    self.admin,
                    self.treasury,
                    self.authority,
                    self.shopper_key,
                    self.shopper,
                    self.order_key,
                    self.order,
                    self.payment_mint.key,
                    balances,
                ) {
                    Err(e) => Err(e),
                    Ok((order, refunded)) => Ok(
                        (
                            order,
                            refunded,
                            OrderUpdate::Cancelled(
                                OrderCancelled { order: self.order_key, timestamp: now },
                            ),
                        ),
                    ),
                },
                _ => Err(SplurgeError::InvalidOrderStatus),
            }
        }
    }

    /// Moves the order to `status` at the time `now`. To `Shipping`, this is
    /// what a shipment does; to `Cancelled`, what a cancellation does; any
    /// other state is refused with `InvalidOrderStatus`. Only the admin may
    /// do so, and only while the order is `Pending` or `Shipping`. On failure
    /// nothing has changed.
    pub fn handler(
        ctx: &mut UpdateOrder,
        ledger: &mut Ledger,
        status: OrderStatus,
        task_id: u16,
        now: i64,
    ) -> (r: Result<OrderUpdate, SplurgeError>)
        ensures
            match old(ctx).outcome(old(ledger)@, status, task_id, now) {
                Ok((order, balances, update)) => {
                    &&& r == Ok::<OrderUpdate, SplurgeError>(update)
                    &&& final(ledger)@ == balances
                    &&& *final(ctx) == (UpdateOrder { order, ..*old(ctx) })
                },
                Err(e) => {
                    &&& r == Err::<OrderUpdate, SplurgeError>(e)
                    &&& final(ledger)@ == old(ledger)@
                    &&& *final(ctx) == *old(ctx)
                },
            },
    {
        if ctx.config.admin != ctx.admin {
            return Err(SplurgeError::UnauthorizedAdmin);
        }
        if ctx.order.status == OrderStatus::Cancelled || ctx.order.status
            == OrderStatus::Completed {
            return Err(SplurgeError::OrderAlreadyFinalized);
        }
        match status {
            OrderStatus::Shipping => {
                match ship(
                    &ctx.config,
                    ctx.admin,
                    &ctx.order,
                    ctx.completion_delay,
                    task_id,
                    now,
                ) {
                    Ok((order, task)) => {
                        ctx.order = order;
                        Ok(
                            OrderUpdate::Shipped(
                                OrderShipped { order: ctx.order_key, timestamp: now },
                                task,
                            ),
                        )
                    },
                    Err(e) => Err(e),
                }
            },
            OrderStatus::Cancelled => {
                match cancel(
                    &ctx.config,
                    ctx.admin,
                    ctx.treasury,
                    ctx.authority,
                    ctx.shopper_key,
                    &ctx.shopper,
                    ctx.order_key,
                    &ctx.order,
                    ctx.payment_mint.key,
                    ledger,
                ) {
                    Ok(order) => {
                        ctx.order = order;
                        Ok(
                            OrderUpdate::Cancelled(
                                OrderCancelled { order: ctx.order_key, timestamp: now },
                            ),
                        )
                    },
                    Err(e) => Err(e),
                }
            },
            _ => Err(SplurgeError::InvalidOrderStatus),
        }
    }
}

} // verus!
