//! Shipping: the admin hands a pending order to shipping, and its completion
//! is scheduled.

use vstd::prelude::*;
use crate::address::Address;
use crate::error::SplurgeError;
use crate::events::OrderShipped;
use crate::state::config::Config;
use crate::state::order::{Order, OrderStatus};

verus! {

/// The task that completes a shipped order once its time has come. Queueing
/// it is left to the caller.
#[derive(Clone, Copy, Debug, PartialEq, Eq, Structural)]
pub struct CompletionTask {
    pub id: u16,
    pub trigger_timestamp: i64,
}

/// The accounts of a shipment.
#[derive(Clone, Debug, PartialEq, Eq)]
pub struct ShipOrder {
    /// The signer, who must be the admin
    pub admin: Address,
    pub config: Config,
    pub order_key: Address,
    pub order: Order,
    /// Seconds after which the completion of the order is due
    pub completion_delay: u32,
}

/// What handing `order` to shipping at the time `now` comes to: the order in
/// its new state and the task that completes it `delay` seconds later.
pub open spec fn shipping_outcome(
    config: Config,
    admin: Address,
    order: Order,
    delay: u32,
    task_id: u16,
    now: i64,
) -> Result<(Order, CompletionTask), SplurgeError> {
    if config.admin != admin {
        Err(SplurgeError::UnauthorizedAdmin)
    } else {
        match OrderStatus::transition_outcome(order.status, OrderStatus::Shipping) {
            Err(e) => Err(e),
            Ok(status) => if now + delay > i64::MAX {
                Err(SplurgeError::MathOverflow)
            } else {
                Ok(
                    (
                        Order { status, ..order },
                        CompletionTask { id: task_id, trigger_timestamp: (now + delay) as i64 },
                    ),
                )
            },
        }
    }
}

/// Hands `order` to shipping at the time `now`, if `admin` is the admin and
/// the order is pending.
pub fn ship(config: &Config, admin: Address, order: &Order, delay: u32, task_id: u16, now: i64)
    -> (r: Result<(Order, CompletionTask), SplurgeError>)
    ensures
        r == shipping_outcome(*config, admin, *order, delay, task_id, now),
{
    if config.admin != admin {
        return Err(SplurgeError::UnauthorizedAdmin);
    }
    let status = match OrderStatus::transition(order.status, OrderStatus::Shipping) {
        Ok(status) => status,
        Err(e) => {
            return Err(e);
        },
    };
    let trigger_timestamp = match now.checked_add(delay as i64) {
        Some(t) => t,
        None => {
            return Err(SplurgeError::MathOverflow);
        },
    };
    let shipped = Order {
        shopper: order.shopper,
        item: order.item,
        timestamp: order.timestamp,
        status,
        amount: order.amount,
        payment_subtotal: order.payment_subtotal,
        platform_fee: order.platform_fee,
        payment_mint: order.payment_mint,
        bump: order.bump,
    };
    Ok((shipped, CompletionTask { id: task_id, trigger_timestamp }))
}

impl ShipOrder {
    /// Moves the order from `Pending` to `Shipping`. Only the admin may do
    /// so. On failure nothing has changed.
    pub fn handler(ctx: &mut ShipOrder, task_id: u16, now: i64) -> (r: Result<
        (OrderShipped, CompletionTask),
        SplurgeError,
    >)
        ensures
            match shipping_outcome(
                old(ctx).config,
                old(ctx).admin,
                old(ctx).order,
                old(ctx).completion_delay,
                task_id,
                now,
            ) {
                Ok((order, task)) => {
                    &&& r == Ok::<(OrderShipped, CompletionTask), SplurgeError>(
                        (OrderShipped { order: old(ctx).order_key, timestamp: now }, task),
                    )
                    &&& *final(ctx) == (ShipOrder { order, ..*old(ctx) })
                },
                Err(e) => {
                    &&& r == Err::<(OrderShipped, CompletionTask), SplurgeError>(e)
                    &&& *final(ctx) == *old(ctx)
                },
            },
    {
        match ship(&ctx.config, ctx.admin, &ctx.order, ctx.completion_delay, task_id, now) {
            Ok((order, task)) => {
                ctx.order = order;
                Ok((OrderShipped { order: ctx.order_key, timestamp: now }, task))
            },
            Err(e) => Err(e),
        }
    }
}

} // verus!
