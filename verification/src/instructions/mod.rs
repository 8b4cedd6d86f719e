//! The operations, each with the accounts it is given.

pub mod add_whitelisted_mint;
pub mod cancel_order;
pub mod complete_order;
pub mod create_item;
pub mod create_order;
pub mod create_review;
pub mod create_shopper;
pub mod create_store;
pub mod delete_item;
pub mod initialize_config;
pub mod initialize_shopper;
pub mod initialize_store;
pub mod list_item;
pub mod remove_whitelisted_mint;
pub mod set_admin;
pub mod ship_order;
pub mod unlist_item;
pub mod update_admin;
pub mod update_config;
pub mod update_item;
pub mod update_order;
pub mod update_store;
pub mod withdraw_earnings;
pub mod withdraw_treasury;

pub use add_whitelisted_mint::{add_whitelisted_mint, AddWhitelistedMint};
pub use cancel_order::CancelOrder;
pub use complete_order::CompleteOrder;
pub use create_item::{CreateItem, CreateItemArgs};
pub use create_order::CreateOrder;
pub use create_review::{CreateReview, CreateReviewArgs};
pub use create_shopper::{CreateShopper, CreateShopperArgs};
pub use create_store::{CreateStore, CreateStoreArgs};
pub use delete_item::DeleteItem;
pub use initialize_config::{InitializeConfig, InitializeConfigArgs};
pub use initialize_shopper::{InitializeShopper, InitializeShopperArgs};
pub use initialize_store::{InitializeStore, InitializeStoreArgs};
pub use list_item::{ListItem, ListItemArgs};
pub use remove_whitelisted_mint::{remove_whitelisted_mint, RemoveWhitelistedMint};
pub use set_admin::{set_admin, SetAdmin};
pub use ship_order::{CompletionTask, ShipOrder};
pub use unlist_item::UnlistItem;
pub use update_admin::{update_admin, UpdateAdmin};
pub use update_config::{UpdateConfig, UpdateConfigArgs};
pub use update_item::{UpdateItem, UpdateItemArgs};
pub use update_order::{OrderUpdate, UpdateOrder};
pub use update_store::{update_store, UpdateStore};
pub use withdraw_earnings::WithdrawEarnings;
pub use withdraw_treasury::WithdrawTreasury;
