//! The records that the operations read and write.

pub mod config;
pub mod item;
pub mod order;
pub mod review;
pub mod shopper;
pub mod splurge_config;
pub mod store;

pub use config::{AcceptedMint, Config};
pub use item::Item;
pub use order::{Order, OrderStatus};
pub use review::Review;
pub use shopper::Shopper;
pub use splurge_config::SplurgeConfig;
pub use store::Store;
