//! The operations under the names by which callers ask for them.

use vstd::prelude::*;
use crate::error::SplurgeError;
use crate::events::{
    ItemListed, OrderCancelled, OrderCompleted, OrderCreated, OrderShipped, ShopperInitialized,
    StoreInitialized,
};
use crate::instructions::cancel_order::CancelOrder;
use crate::instructions::complete_order::CompleteOrder;
use crate::instructions::create_order::CreateOrder;
use crate::instructions::create_review::{CreateReview, CreateReviewArgs};
use crate::instructions::initialize_config::{InitializeConfig, InitializeConfigArgs};
use crate::instructions::initialize_shopper::{InitializeShopper, InitializeShopperArgs};
use crate::instructions::initialize_store::{InitializeStore, InitializeStoreArgs};
use crate::instructions::list_item::{ListItem, ListItemArgs};
use crate::instructions::ship_order::{shipping_outcome, CompletionTask, ShipOrder};
use crate::instructions::unlist_item::UnlistItem;
use crate::instructions::update_config::{UpdateConfig, UpdateConfigArgs};
use crate::instructions::update_item::{UpdateItem, UpdateItemArgs};
use crate::instructions::withdraw_earnings::WithdrawEarnings;
use crate::instructions::withdraw_treasury::WithdrawTreasury;
use crate::ledger::Ledger;
use crate::state::config::{deduplicated, rules_outcome, Config};
use crate::state::item::Item;
use crate::state::order::Order;
use crate::state::review::Review;
use crate::state::shopper::Shopper;
use crate::state::store::Store;

verus! {

/// Sets the platform up: see `InitializeConfig::handler`.
pub fn initialize_config(ctx: &InitializeConfig, args: InitializeConfigArgs) -> (r: Result<
    Config,
    SplurgeError,
>)
    ensures
        match rules_outcome(
            args.admin,
            args.treasury,
            args.order_fee_bps,
            deduplicated(args.accepted_mints@),
        ) {
            Ok(_) => {
                &&& r is Ok
                &&& r->Ok_0.valid()
                &&& r->Ok_0.admin == args.admin
                &&& r->Ok_0.treasury == args.treasury
                &&& r->Ok_0.order_fee_bps == args.order_fee_bps
                &&& !r->Ok_0.is_paused
                &&& r->Ok_0.bump == ctx.bump
                &&& r->Ok_0.accepted_mints@ == deduplicated(args.accepted_mints@)
                &&& forall|i: int| 0 <= i < 64 ==> r->Ok_0.reserved[i] == 0
            },
            Err(e) => r is Err && r->Err_0 == e,
        },
{
    InitializeConfig::handler(ctx, args)
}

/// Changes the platform's configuration: see `UpdateConfig::handler`.
pub fn update_config(ctx: &mut UpdateConfig, args: UpdateConfigArgs) -> (r: Result<
    (),
    SplurgeError,
>)
    ensures
        r == old(ctx).outcome(args),
        r is Ok ==> {
            &&& final(ctx).config.valid()
            &&& final(ctx).admin == old(ctx).admin
            &&& final(ctx).config.admin == args.admin_after(old(ctx).config)
            &&& final(ctx).config.treasury == args.treasury_after(old(ctx).config)
            &&& final(ctx).config.is_paused == args.paused_after(old(ctx).config)
            &&& final(ctx).config.order_fee_bps == args.fee_after(old(ctx).config)
            &&& final(ctx).config.accepted_mints@ == args.mints_after(old(ctx).config)
            &&& final(ctx).config.bump == old(ctx).config.bump
            &&& final(ctx).config.reserved == old(ctx).config.reserved
        },
        r is Err ==> *final(ctx) == *old(ctx),
{
    UpdateConfig::handler(ctx, args)
}

/// Sets a shopper up: see `InitializeShopper::handler`.
pub fn initialize_shopper(ctx: &InitializeShopper, args: InitializeShopperArgs, now: i64) -> (r:
    Result<(Shopper, ShopperInitialized), SplurgeError>)
    ensures
        r == (match ctx.refusal(args) {
            Some(e) => Err::<(Shopper, ShopperInitialized), SplurgeError>(e),
            None => Ok::<(Shopper, ShopperInitialized), SplurgeError>(
                (
                    Shopper {
                        authority: ctx.authority,
                        bump: ctx.bump,
                        name: args.name,
                        image: args.image,
                        address: args.address,
                    },
                    ShopperInitialized {
                        shopper: ctx.shopper_key,
                        authority: ctx.authority,
                        timestamp: now,
                    },
                ),
            ),
        }),
{
    InitializeShopper::handler(ctx, args, now)
}

/// Sets a store up: see `InitializeStore::handler`.
pub fn initialize_store(ctx: &InitializeStore, args: InitializeStoreArgs, now: i64) -> (r: Result<
    (Store, StoreInitialized),
    SplurgeError,
>)
    ensures
        r == (match ctx.refusal(args) {
            Some(e) => Err::<(Store, StoreInitialized), SplurgeError>(e),
            None => Ok::<(Store, StoreInitialized), SplurgeError>(
                (
                    Store {
                        authority: ctx.authority,
                        bump: ctx.bump,
                        name: args.name,
                        image: args.image,
                        about: args.about,
                    },
                    StoreInitialized {
                        store: ctx.store_key,
                        authority: ctx.authority,
                        timestamp: now,
                    },
                ),
            ),
        }),
{
    InitializeStore::handler(ctx, args, now)
}

/// Puts an item on offer: see `ListItem::handler`.
pub fn list_item(ctx: &ListItem, args: ListItemArgs, now: i64) -> (r: Result<
    (Item, ItemListed),
    SplurgeError,
>)
    ensures
        r == (match ctx.refusal(args) {
            Some(e) => Err::<(Item, ItemListed), SplurgeError>(e),
            None => Ok::<(Item, ItemListed), SplurgeError>(
                (
                    Item {
                        store: ctx.store_key,
                        price: args.price,
                        inventory_count: args.inventory_count,
                        bump: ctx.bump,
                        name: args.name,
                        image: args.image,
                        description: args.description,
                    },
                    ItemListed { item: ctx.item_key, timestamp: now },
                ),
            ),
        }),
{
    ListItem::handler(ctx, args, now)
}

/// Changes price or inventory of an item: see `UpdateItem::handler`.
pub fn update_item(ctx: &mut UpdateItem, args: UpdateItemArgs) -> (r: Result<(), SplurgeError>)
    ensures
        match old(ctx).refusal() {
            Some(e) => r == Err::<(), SplurgeError>(e) && *final(ctx) == *old(ctx),
            None => r is Ok && *final(ctx) == (UpdateItem {
                item: Item {
                    price: match args.price {
                        Some(price) => price,
                        None => old(ctx).item.price,
                    },
                    inventory_count: match args.inventory_count {
                        Some(count) => count,
                        None => old(ctx).item.inventory_count,
                    },
                    ..old(ctx).item
                },
                ..*old(ctx)
            }),
        },
{
    UpdateItem::handler(ctx, args)
}

/// Takes an item off offer: see `UnlistItem::handler`.
pub fn unlist_item(ctx: &mut UnlistItem) -> (r: Result<(), SplurgeError>)
    ensures
        match old(ctx).refusal() {
            Some(e) => r == Err::<(), SplurgeError>(e) && *final(ctx) == *old(ctx),
            None => r is Ok && *final(ctx) == (UnlistItem { item: None, ..*old(ctx) }),
        },
{
    UnlistItem::handler(ctx)
}

/// Creates an order and pays for it: see `CreateOrder::handler`.
pub fn create_order(
    ctx: &mut CreateOrder,
    ledger: &mut Ledger,
    amount: u32,
    timestamp: i64,
    now: i64,
) -> (r: Result<(Order, OrderCreated), SplurgeError>)
    ensures
        match old(ctx).outcome(old(ledger)@, amount, timestamp, now) {
            Ok((order, left, balances)) => {
                &&& r == Ok::<(Order, OrderCreated), SplurgeError>(
                    (order, OrderCreated { order: old(ctx).order_key, timestamp }),
                )
                &&& final(ledger)@ == balances
                &&& *final(ctx) == (CreateOrder {
                    item: Item { inventory_count: left, ..old(ctx).item },
                    ..*old(ctx)
                })
            },
            Err(e) => {
                &&& r == Err::<(Order, OrderCreated), SplurgeError>(e)
                &&& final(ledger)@ == old(ledger)@
                &&& *final(ctx) == *old(ctx)
            },
        },
{
    CreateOrder::handler(ctx, ledger, amount, timestamp, now)
}

/// Hands an order to shipping: see `ShipOrder::handler`.
pub fn ship_order(ctx: &mut ShipOrder, task_id: u16, now: i64) -> (r: Result<
    (OrderShipped, CompletionTask),
    SplurgeError,
>)
    ensures
        match shipping_outcome(
            old(ctx).config,
            old(ctx).admin,
            old(ctx).order,
            old(ctx).completion_delay,
            task_id,
            now,
        ) {
            Ok((order, task)) => {
                &&& r == Ok::<(OrderShipped, CompletionTask), SplurgeError>(
                    (OrderShipped { order: old(ctx).order_key, timestamp: now }, task),
                )
                &&& *final(ctx) == (ShipOrder { order, ..*old(ctx) })
            },
            Err(e) => {
                &&& r == Err::<(OrderShipped, CompletionTask), SplurgeError>(e)
                &&& *final(ctx) == *old(ctx)
            },
        },
{
    ShipOrder::handler(ctx, task_id, now)
}

/// Cancels an order and refunds it: see `CancelOrder::handler`.
pub fn cancel_order(ctx: &mut CancelOrder, ledger: &mut Ledger, now: i64) -> (r: Result<
    OrderCancelled,
    SplurgeError,
>)
    ensures
        match old(ctx).outcome(old(ledger)@) {
            Ok((order, balances)) => {
                &&& r == Ok::<OrderCancelled, SplurgeError>(
                    OrderCancelled { order: old(ctx).order_key, timestamp: now },
                )
                &&& final(ledger)@ == balances
                &&& *final(ctx) == (CancelOrder { order, ..*old(ctx) })
            },
            Err(e) => {
                &&& r == Err::<OrderCancelled, SplurgeError>(e)
                &&& final(ledger)@ == old(ledger)@
                &&& *final(ctx) == *old(ctx)
            },
        },
{
    CancelOrder::handler(ctx, ledger, now)
}

/// Completes an order and pays the store: see `CompleteOrder::handler`.
pub fn complete_order(ctx: &mut CompleteOrder, ledger: &mut Ledger, now: i64) -> (r: Result<
    OrderCompleted,
    SplurgeError,
>)
    ensures
        match old(ctx).outcome(old(ledger)@, now) {
            Ok((order, balances)) => {
                &&& r == Ok::<OrderCompleted, SplurgeError>(
                    OrderCompleted { order: old(ctx).order_key, timestamp: now },
                )
                &&& final(ledger)@ == balances
                &&& *final(ctx) == (CompleteOrder { order, ..*old(ctx) })
            },
            Err(e) => {
                &&& r == Err::<OrderCompleted, SplurgeError>(e)
                &&& final(ledger)@ == old(ledger)@
                &&& *final(ctx) == *old(ctx)
            },
        },
{
    CompleteOrder::handler(ctx, ledger, now)
}

/// Stores the review of a completed order: see `CreateReview::handler`.
pub fn create_review(ctx: &mut CreateReview, args: CreateReviewArgs, now: i64) -> (r: Result<
    (),
    SplurgeError,
>)
    ensures
        match old(ctx).refusal(args.rating) {
            None => {
                &&& r is Ok
                &&& *final(ctx) == (CreateReview {
                    review: Some(
                        Review {
                            order: old(ctx).order_key,
                            rating: args.rating,
                            timestamp: now,
                            bump: old(ctx).review_bump,
                            text: args.text,
                        },
                    ),
                    ..*old(ctx)
                })
            },
            Some(e) => r == Err::<(), SplurgeError>(e) && *final(ctx) == *old(ctx),
        },
{
    CreateReview::handler(ctx, args, now)
}

/// Pays a store's earnings out: see `WithdrawEarnings::handler`.
pub fn withdraw_earnings(ctx: &WithdrawEarnings, ledger: &mut Ledger) -> (r: Result<
    u64,
    SplurgeError,
>)
    ensures
        match ctx.outcome(old(ledger)@) {
            Ok((amount, balances)) => r == Ok::<u64, SplurgeError>(amount) && final(ledger)@
                == balances,
            Err(e) => r == Err::<u64, SplurgeError>(e) && final(ledger)@ == old(ledger)@,
        },
{
    WithdrawEarnings::handler(ctx, ledger)
}

/// Pays the treasury's fees out: see `WithdrawTreasury::handler`.
pub fn withdraw_treasury(ctx: &WithdrawTreasury, ledger: &mut Ledger) -> (r: Result<
    u64,
    SplurgeError,
>)
    ensures
        match ctx.outcome(old(ledger)@) {
            Ok((amount, balances)) => r == Ok::<u64, SplurgeError>(amount) && final(ledger)@
                == balances,
            Err(e) => r == Err::<u64, SplurgeError>(e) && final(ledger)@ == old(ledger)@,
        },
{
    WithdrawTreasury::handler(ctx, ledger)
}

} // verus!
