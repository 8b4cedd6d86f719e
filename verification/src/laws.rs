//! What holds of the operations taken together.

use vstd::prelude::*;
use crate::address::Address;
use crate::constants::MAX_ORACLE_STALENESS;
use crate::error::SplurgeError;
use crate::escrow::{gain, held, lemma_fund, lemma_refund, lemma_release};
use crate::events::OrderCancelled;
use crate::fees::{fee_of, lemma_amounts_nonnegative, subtotal_of};
use crate::precise::one;
use crate::oracle::{lemma_unit_price_nonnegative, reading_outcome, PriceFeedMessage};
use crate::instructions::cancel_order::CancelOrder;
use crate::instructions::complete_order::CompleteOrder;
use crate::instructions::create_order::CreateOrder;
use crate::instructions::ship_order::{shipping_outcome, CompletionTask};
use crate::instructions::update_config::{UpdateConfig, UpdateConfigArgs};
use crate::instructions::update_order::{OrderUpdate, UpdateOrder};
use crate::ledger::Holder;
use crate::state::config::{lemma_deduplicated, Config};
use crate::state::order::{Order, OrderStatus};

verus! {

/// Escrow balancing: after every successful purchase the escrow of the order
/// holds exactly the subtotal and none of the fee. The fee is the order's
/// share in basis points of the subtotal, rounded up, and has gone to the
/// treasury in the same step: every holder but the escrow holds what it held,
/// the treasury the fee more and the payer subtotal and fee less; so where
/// the payer is not the treasury, the treasury holds exactly the fee more.
pub proof fn law_escrow_balancing(
    ctx: CreateOrder,
    balances: Map<Holder, u64>,
    amount: u32,
    timestamp: i64,
    now: i64,
)
    requires
        ctx.outcome(balances, amount, timestamp, now) is Ok,
    ensures
        ({
            let (order, left, after) = ctx.outcome(balances, amount, timestamp, now)->Ok_0;
            &&& order.status == OrderStatus::Pending
            &&& order.platform_fee == fee_of(
                order.payment_subtotal as int,
                ctx.config.order_fee_bps as int,
            )
            &&& ctx.escrow() != ctx.payer() && ctx.escrow() != ctx.treasury_holder()
            &&& after.dom().contains(ctx.escrow())
            &&& held(after, ctx.escrow()) == order.payment_subtotal
            &&& forall|h: Holder|
                h != ctx.escrow() ==> held(after, h) == held(balances, h) + gain(
                    h,
                    ctx.treasury_holder(),
                    order.platform_fee as int,
                ) - gain(h, ctx.payer(), order.payment_subtotal + order.platform_fee)
            &&& ctx.authority != ctx.treasury ==> held(after, ctx.treasury_holder()) == held(
                balances,
                ctx.treasury_holder(),
            ) + order.platform_fee && held(after, ctx.payer()) == held(balances, ctx.payer())
                - order.payment_subtotal - order.platform_fee
        }),
{
    let (order, left, after) = ctx.outcome(balances, amount, timestamp, now)->Ok_0;
    let message = ctx.price_update_v2.price_message;
    lemma_unit_price_nonnegative(message.price as int, message.exponent as int);
    lemma_amounts_nonnegative(
        amount as int,
        ctx.item.price as int,
        reading_outcome(message, timestamp as int)->Ok_0,
        ctx.config.order_fee_bps as int,
    );
    lemma_fund(
        balances,
        ctx.payer(),
        ctx.escrow(),
        ctx.treasury_holder(),
        order.payment_subtotal,
        order.platform_fee,
    );
}

/// Settlement conservation, the completion itself: a completion succeeds
/// only on an escrow that holds exactly the order's subtotal, pays the store
/// exactly that, closes the escrow, and changes no other balance: the
/// treasury keeps the fee it was paid when the order was created, and the
/// shopper holds what the shopper held. The amounts of the order stay as they
/// are.
pub proof fn law_completion_pays_subtotal(ctx: CompleteOrder, balances: Map<Holder, u64>, now: i64)
    requires
        ctx.outcome(balances, now) is Ok,
    ensures
        ({
            let (order, after) = ctx.outcome(balances, now)->Ok_0;
            let mint = ctx.payment_mint.key;
            let escrow = Holder { owner: ctx.order_key, mint };
            let store = Holder { owner: ctx.store_key, mint };
            let treasury = Holder { owner: ctx.config.treasury, mint };
            let shopper = Holder { owner: ctx.authority, mint };
            &&& ctx.order.status == OrderStatus::Shipping
            &&& order == (Order { status: OrderStatus::Completed, ..ctx.order })
            &&& held(balances, escrow) == order.payment_subtotal
            &&& held(after, escrow) == 0
            &&& !after.dom().contains(escrow)
            &&& held(after, store) == held(balances, store) + order.payment_subtotal
            &&& held(after, treasury) == held(balances, treasury)
            &&& held(after, shopper) == held(balances, shopper)
            &&& forall|h: Holder| h != escrow && h != store ==> held(after, h) == held(balances, h)
        }),
{
    lemma_release(
        balances,
        Holder { owner: ctx.order_key, mint: ctx.payment_mint.key },
        Holder { owner: ctx.store_key, mint: ctx.payment_mint.key },
        ctx.order.payment_subtotal,
    );
}

/// Settlement conservation, from purchase to completion: when an order is
/// created and then completed for the same shopper and treasury, the store
/// has received the subtotal, the escrow is closed, and of the holders that
/// are neither, each holds what it held, the treasury the fee more and the
/// payer subtotal and fee less; so where the payer is not the treasury, the
/// treasury has received exactly the fee.
pub proof fn law_settlement_conservation(
    create: CreateOrder,
    complete: CompleteOrder,
    balances: Map<Holder, u64>,
    amount: u32,
    timestamp: i64,
    created_at: i64,
    completed_at: i64,
)
    requires
        create.outcome(balances, amount, timestamp, created_at) is Ok,
        complete.order_key == create.order_key,
        complete.authority == create.authority,
        complete.config.treasury == create.treasury,
        complete.payment_mint.key == create.payment_mint.key,
        complete.order == (Order {
            status: OrderStatus::Shipping,
            ..create.outcome(balances, amount, timestamp, created_at)->Ok_0.0
        }),
        complete.outcome(
            create.outcome(balances, amount, timestamp, created_at)->Ok_0.2,
            completed_at,
        ) is Ok,
    ensures
        ({
            let (order, left, paid) = create.outcome(balances, amount, timestamp, created_at)->Ok_0;
            let (done, after) = complete.outcome(paid, completed_at)->Ok_0;
            let store = Holder { owner: complete.store_key, mint: create.payment_mint.key };
            &&& done.status == OrderStatus::Completed
            &&& held(after, store) == held(balances, store) + order.payment_subtotal
            &&& held(after, create.escrow()) == 0
            &&& forall|h: Holder|
                h != create.escrow() && h != store ==> held(after, h) == held(balances, h) + gain(
                    h,
                    create.treasury_holder(),
                    order.platform_fee as int,
                ) - gain(h, create.payer(), order.payment_subtotal + order.platform_fee)
            &&& create.authority != create.treasury ==> held(after, create.treasury_holder())
                == held(balances, create.treasury_holder()) + order.platform_fee && held(
                after,
                create.payer(),
            ) == held(balances, create.payer()) - order.payment_subtotal - order.platform_fee
        }),
{
    let (order, left, paid) = create.outcome(balances, amount, timestamp, created_at)->Ok_0;
    law_escrow_balancing(create, balances, amount, timestamp, created_at);
    law_completion_pays_subtotal(complete, paid, completed_at);
    let store = Holder { owner: complete.store_key, mint: create.payment_mint.key };
    assert(store != create.escrow() && store != create.treasury_holder() && store
        != create.payer());
}

/// Refund completeness, the cancellation itself: a cancellation succeeds
/// only on an escrow that holds exactly the order's subtotal, and closes it;
/// every other holder holds what it held, the shopper subtotal and fee more
/// and the treasury the fee less.
pub proof fn law_cancellation_refunds(ctx: CancelOrder, balances: Map<Holder, u64>)
    requires
        ctx.outcome(balances) is Ok,
    ensures
        ({
            let (order, after) = ctx.outcome(balances)->Ok_0;
            let escrow = Holder { owner: ctx.order_key, mint: ctx.payment_mint.key };
            let shopper = Holder { owner: ctx.authority, mint: ctx.payment_mint.key };
            let treasury = Holder { owner: ctx.treasury, mint: ctx.payment_mint.key };
            &&& !ctx.order.status.is_final()
            &&& order == (Order { status: OrderStatus::Cancelled, ..ctx.order })
            &&& escrow != shopper && escrow != treasury
            &&& held(balances, escrow) == order.payment_subtotal
            &&& held(after, escrow) == 0
            &&& !after.dom().contains(escrow)
            &&& forall|h: Holder|
                h != escrow ==> held(after, h) == held(balances, h) + gain(
                    h,
                    shopper,
                    order.payment_subtotal + order.platform_fee,
                ) - gain(h, treasury, order.platform_fee as int)
            &&& ctx.authority != ctx.treasury ==> held(after, shopper) == held(balances, shopper)
                + order.payment_subtotal + order.platform_fee && held(after, treasury) == held(
                balances,
                treasury,
            ) - order.platform_fee
        }),
{
    lemma_refund(
        balances,
        Holder { owner: ctx.order_key, mint: ctx.payment_mint.key },
        Holder { owner: ctx.authority, mint: ctx.payment_mint.key },
        Holder { owner: ctx.treasury, mint: ctx.payment_mint.key },
        ctx.order.payment_subtotal,
        ctx.order.platform_fee,
    );
}

/// Refund completeness, from purchase to cancellation: when an order is
/// created and then cancelled, whether it was shipped in between or not, the
/// shopper holds exactly what the shopper held before the purchase, and so
/// do the treasury and every other holder; the escrow is closed.
pub proof fn law_refund_completeness(
    create: CreateOrder,
    cancel: CancelOrder,
    balances: Map<Holder, u64>,
    amount: u32,
    timestamp: i64,
    created_at: i64,
)
    requires
        create.outcome(balances, amount, timestamp, created_at) is Ok,
        cancel.order_key == create.order_key,
        cancel.authority == create.authority,
        cancel.treasury == create.treasury,
        cancel.payment_mint.key == create.payment_mint.key,
        cancel.order == create.outcome(balances, amount, timestamp, created_at)->Ok_0.0
            || cancel.order == (Order {
            status: OrderStatus::Shipping,
            ..create.outcome(balances, amount, timestamp, created_at)->Ok_0.0
        }),
        cancel.outcome(create.outcome(balances, amount, timestamp, created_at)->Ok_0.2) is Ok,
    ensures
        ({
            let (order, left, paid) = create.outcome(balances, amount, timestamp, created_at)->Ok_0;
            let (cancelled, after) = cancel.outcome(paid)->Ok_0;
            &&& cancelled.status == OrderStatus::Cancelled
            &&& held(after, create.payer()) == held(balances, create.payer())
            &&& held(after, create.treasury_holder()) == held(balances, create.treasury_holder())
            &&& held(after, create.escrow()) == 0
            &&& forall|h: Holder| held(after, h) == held(balances, h)
        }),
{
    let (order, left, paid) = create.outcome(balances, amount, timestamp, created_at)->Ok_0;
    law_escrow_balancing(create, balances, amount, timestamp, created_at);
    law_cancellation_refunds(cancel, paid);
}

/// Refund completeness, for an update that cancels: an update to `Cancelled`
/// that succeeds is a cancellation. The order becomes `Cancelled`, its escrow
/// held exactly the subtotal and is closed, and every other holder holds
/// what it held, the shopper subtotal and fee more and the treasury the fee
/// less.
pub proof fn law_cancelling_update_refunds(
    ctx: UpdateOrder,
    balances: Map<Holder, u64>,
    task_id: u16,
    now: i64,
)
    requires
        ctx.outcome(balances, OrderStatus::Cancelled, task_id, now) is Ok,
    ensures
        ({
            let (order, after, update) = ctx.outcome(
                balances,
                OrderStatus::Cancelled,
                task_id,
                now,
            )->Ok_0;
            let escrow = Holder { owner: ctx.order_key, mint: ctx.payment_mint.key };
            let shopper = Holder { owner: ctx.authority, mint: ctx.payment_mint.key };
            let treasury = Holder { owner: ctx.treasury, mint: ctx.payment_mint.key };
            &&& order == (Order { status: OrderStatus::Cancelled, ..ctx.order })
            &&& update == OrderUpdate::Cancelled(
                OrderCancelled { order: ctx.order_key, timestamp: now },
            )
            &&& held(balances, escrow) == order.payment_subtotal
            &&& held(after, escrow) == 0
            &&& !after.dom().contains(escrow)
            &&& forall|h: Holder|
                h != escrow ==> held(after, h) == held(balances, h) + gain(
                    h,
                    shopper,
                    order.payment_subtotal + order.platform_fee,
                ) - gain(h, treasury, order.platform_fee as int)
            &&& ctx.authority != ctx.treasury ==> held(after, shopper) == held(balances, shopper)
                + order.payment_subtotal + order.platform_fee
        }),
{
    lemma_refund(
        balances,
        Holder { owner: ctx.order_key, mint: ctx.payment_mint.key },
        Holder { owner: ctx.authority, mint: ctx.payment_mint.key },
        Holder { owner: ctx.treasury, mint: ctx.payment_mint.key },
        ctx.order.payment_subtotal,
        ctx.order.platform_fee,
    );
}

/// One purchase of a run: the accounts and balances it meets, and what is
/// asked for.
pub struct Purchase {
    pub ctx: CreateOrder,
    pub balances: Map<Holder, u64>,
    pub amount: u32,
    pub timestamp: i64,
    pub now: i64,
}

impl Purchase {
    /// Whether the purchase succeeds.
    pub open spec fn succeeds(self) -> bool {
        self.ctx.outcome(self.balances, self.amount, self.timestamp, self.now) is Ok
    }

    /// The inventory of the item after the purchase.
    pub open spec fn inventory_after(self) -> u32 {
        match self.ctx.outcome(self.balances, self.amount, self.timestamp, self.now) {
            Ok((_, left, _)) => left,
            Err(_) => self.ctx.item.inventory_count,
        }
    }
}

/// Whether each purchase of the run meets the inventory that the one before
/// it left, the first one meeting `initial`.
pub open spec fn one_item(run: Seq<Purchase>, initial: u32) -> bool {
    forall|i: int|
        0 <= i < run.len() ==> (#[trigger] run[i]).ctx.item.inventory_count == (if i == 0 {
            initial
        } else {
            run[i - 1].inventory_after()
        })
}

/// The units that the successful purchases of the run have bought.
pub open spec fn units_sold(run: Seq<Purchase>) -> int
    decreases run.len(),
{
    if run.len() == 0 {
        0
    } else {
        units_sold(run.drop_last()) + (if run.last().succeeds() {
            run.last().amount as int
        } else {
            0
        })
    }
}

/// The inventory that the run leaves of the `initial` units.
pub open spec fn inventory_left(run: Seq<Purchase>, initial: u32) -> u32 {
    if run.len() == 0 {
        initial
    } else {
        run.last().inventory_after()
    }
}

/// Inventory non-negativity: over any run of purchases of one item, the
/// units sold and the inventory left add up to the initial inventory, so the
/// successful purchases never buy more than there was; and a purchase that
/// asks for more than is left fails and leaves the inventory as it is.
pub proof fn law_inventory_never_oversold(run: Seq<Purchase>, initial: u32)
    requires
        one_item(run, initial),
    ensures
        units_sold(run) + inventory_left(run, initial) == initial,
        0 <= units_sold(run) <= initial,
        forall|i: int|
            0 <= i < run.len() && (#[trigger] run[i]).amount > run[i].ctx.item.inventory_count
                ==> !run[i].succeeds() && run[i].inventory_after()
                == run[i].ctx.item.inventory_count,
    decreases run.len(),
{
    if run.len() > 0 {
        let front = run.drop_last();
        assert forall|i: int| 0 <= i < front.len() implies (#[trigger] front[i]).ctx.item.inventory_count
            == (if i == 0 {
            initial
        } else {
            front[i - 1].inventory_after()
        }) by {
            assert(front[i] == run[i]);
            if i > 0 {
                assert(front[i - 1] == run[i - 1]);
            }
        }
        law_inventory_never_oversold(front, initial);
        if run.len() > 1 {
            assert(front.last() == run[run.len() - 2]);
        }
        assert(run.last().ctx.item.inventory_count == inventory_left(front, initial));
    }
}

/// Status-graph closure: nothing moves an order out of `Cancelled` or
/// `Completed`. Every request for a new state is refused, and so are a
/// shipment, a cancellation, a completion and an update, which leave the
/// order as it is. Where the accounts are in order, the refusal names the
/// state: `OrderAlreadyFinalized` for a shipment, a cancellation and an
/// update, `OrderAlreadyCompleted` for the completion of a completed order
/// and `OrderNotBeingShipped` for that of a cancelled one.
pub proof fn law_final_states_absorb(
    order: Order,
    requested: OrderStatus,
    config: Config,
    admin: Address,
    delay: u32,
    task_id: u16,
    now: i64,
    cancel: CancelOrder,
    complete: CompleteOrder,
    update: UpdateOrder,
    balances: Map<Holder, u64>,
)
    requires
        order.status.is_final(),
        cancel.order == order,
        complete.order == order,
        update.order == order,
    ensures
        OrderStatus::transition_outcome(order.status, requested) is Err,
        shipping_outcome(config, admin, order, delay, task_id, now) is Err,
        config.admin == admin ==> shipping_outcome(config, admin, order, delay, task_id, now)
            == Err::<(Order, CompletionTask), SplurgeError>(
            SplurgeError::OrderAlreadyFinalized,
        ),
        cancel.outcome(balances) is Err,
        cancel.config.admin == cancel.admin && cancel.config.treasury == cancel.treasury
            && cancel.shopper.authority == cancel.authority && order.shopper == cancel.shopper_key
            ==> cancel.outcome(balances) == Err::<(Order, Map<Holder, u64>), SplurgeError>(
            SplurgeError::OrderAlreadyFinalized,
        ),
        complete.outcome(balances, now) is Err,
        complete.config.admin == complete.admin && complete.shopper.authority
            == complete.authority && complete.item.store == complete.store_key && order.shopper
            == complete.shopper_key && order.item == complete.item_key && order.payment_mint
            == complete.payment_mint.key ==> complete.outcome(balances, now) == Err::<
            (Order, Map<Holder, u64>),
            SplurgeError,
        >(
            if order.status == OrderStatus::Completed {
                SplurgeError::OrderAlreadyCompleted
            } else {
                SplurgeError::OrderNotBeingShipped
            },
        ),
        update.outcome(balances, requested, task_id, now) is Err,
        update.config.admin == update.admin ==> update.outcome(balances, requested, task_id, now)
            == Err::<
            (Order, Map<Holder, u64>, OrderUpdate),
            SplurgeError,
        >(SplurgeError::OrderAlreadyFinalized),
{
}

/// Whitelist emptiness guard: a change of the configuration that names an
/// empty list of accepted tokens is refused, with `EmptyAcceptedMints` where
/// the signer is the admin and neither admin nor treasury would be null; and
/// no change that succeeds leaves the list empty.
pub proof fn law_whitelist_never_empty(ctx: UpdateConfig, args: UpdateConfigArgs)
    ensures
        args.accepted_mints is Some && args.accepted_mints->0@.len() == 0 ==> ctx.outcome(args)
            is Err,
        args.accepted_mints is Some && args.accepted_mints->0@.len() == 0 && ctx.config.admin
            == ctx.admin && args.admin_after(ctx.config) != Address::null()
            && args.treasury_after(ctx.config) != Address::null()
            ==> ctx.outcome(args) == Err::<(), SplurgeError>(SplurgeError::EmptyAcceptedMints),
        ctx.outcome(args) is Ok ==> args.mints_after(ctx.config).len() > 0,
{
    if args.accepted_mints is Some {
        lemma_deduplicated(args.accepted_mints->0@);
    }
}

/// Rounding policy: subtotal and fee are never below the exact value, and
/// less than one smallest unit above it; a fee of at most 10000 basis points
/// is at most the subtotal.
pub proof fn law_rounding_up(amount: int, unit_price: int, oracle: int, fee_bps: int)
    requires
        0 <= amount,
        0 <= unit_price,
        0 <= oracle,
        0 <= fee_bps,
    ensures
        ({
            let exact = amount * unit_price * oracle;
            let subtotal = subtotal_of(amount, unit_price, oracle);
            let fee = fee_of(subtotal, fee_bps);
            &&& exact <= subtotal * one() < exact + one()
            &&& subtotal * fee_bps <= fee * 10000 < subtotal * fee_bps + 10000
            &&& fee_bps <= 10000 ==> fee <= subtotal
        }),
{
    lemma_amounts_nonnegative(amount, unit_price, oracle, fee_bps);
    let subtotal = subtotal_of(amount, unit_price, oracle);
    let fee = fee_of(subtotal, fee_bps);
    if fee_bps <= 10000 {
        assert(subtotal * fee_bps <= subtotal * 10000) by (nonlinear_arith)
            requires
                0 <= subtotal,
                0 <= fee_bps <= 10000,
        ;
    }
}

/// Staleness boundary: a reading that is exactly as old as the maximum
/// staleness is not refused as stale, and one that is a second older is.
pub proof fn law_staleness_boundary(message: PriceFeedMessage, now: i64)
    ensures
        now - message.publish_time == MAX_ORACLE_STALENESS ==> reading_outcome(message, now as int)
            != Err::<int, SplurgeError>(SplurgeError::StalePrice),
        now - message.publish_time == MAX_ORACLE_STALENESS + 1 ==> reading_outcome(
            message,
            now as int,
        ) == Err::<int, SplurgeError>(SplurgeError::StalePrice),
        reading_outcome(message, now as int) == Err::<int, SplurgeError>(SplurgeError::StalePrice)
            <==> now - message.publish_time > MAX_ORACLE_STALENESS,
{
}

} // verus!
