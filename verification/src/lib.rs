//! Settlement engine of a marketplace in which shoppers buy items from stores
//! through escrowed orders paid in a whitelisted stable-value token.
//!
//! - [`oracle`] turns a reading of a price feed into a fixed-point unit price
//!   and refuses readings that are stale.
//! - [`fees`] computes the subtotal and the platform fee of an order, both
//!   rounded up, on the fixed-point numbers of [`precise`].
//! - [`state`] holds the records: configuration, shopper, store, item, order
//!   and review.
//! - [`ledger`] holds the token balances, and [`escrow`] moves them as an
//!   order is created, cancelled or completed.
//! - [`instructions`] holds the operations with the accounts each is given,
//!   and [`program`] offers them under the names by which callers ask for
//!   them.
//! - [`laws`] states what holds of the operations taken together.
//!
//! Every operation either succeeds or leaves all records and balances as they
//! were.

pub mod address;
pub mod constants;
pub mod error;
pub mod escrow;
pub mod events;
pub mod fees;
pub mod instructions;
pub mod laws;
pub mod ledger;
pub mod oracle;
pub mod precise;
pub mod program;
pub mod state;
pub mod utils;
