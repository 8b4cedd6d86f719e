//! The failures that an operation can report.

use vstd::prelude::*;

verus! {

/// Why an operation was refused. Every refusal leaves all records and
/// balances as they were.
#[derive(Clone, Copy, Debug, PartialEq, Eq, Structural)]
pub enum SplurgeError {
    InvalidAddress,
    InvalidTimestamp,
    EmptyAcceptedMints,
    InvalidOrderFee,
    UnauthorizedAdmin,
    AdminAlreadyAssigned,
    MintAlreadyWhitelisted,
    MintNotWhitelisted,
    CannotRemoveAllWhitelistedMints,
    PlatformPaused,
    PaymentMintNotAccepted,
    InvalidPriceUpdateV2,
    ShopperNameRequired,
    ShopperNameTooLong,
    ShopperImageRequired,
    ShopperAddressRequired,
    InvalidShopperAuthority,
    StoreNameRequired,
    StoreNameTooLong,
    StoreImageRequired,
    InvalidStoreAuthority,
    ItemNameRequired,
    ItemNameTooLong,
    ItemImageRequired,
    InvalidItemStore,
    InvalidAmount,
    InsufficientInventory,
    OrderAlreadyFinalized,
    OrderNotPending,
    OrderNotBeingShipped,
    OrderAlreadyCompleted,
    OrderNotCompleted,
    InvalidOrderStatus,
    InvalidOrderPaymentMint,
    InvalidOrderShopper,
    InvalidOrderItem,
    InvalidOrderAddress,
    InvalidStoreAddress,
    InvalidRating,
    DuplicateReview,
    MathOverflow,
    InvalidPrice,
    StalePrice,
    InvalidTreasury,
    InvalidTokenAccount,
    NonEmptyTokenAccount,
    InsufficientFunds,
}

impl SplurgeError {
    /// The text of the message that goes with each failure.
    pub open spec fn message_text(self) -> Seq<char> {
        match self {
            SplurgeError::InvalidAddress => "Address cannot be default pubkey"@,
            SplurgeError::InvalidTimestamp => "Timestamp cannot be in the future"@,
            SplurgeError::EmptyAcceptedMints => "Whitelist cannot be empty"@,
            SplurgeError::InvalidOrderFee => "Order fee cannot exceed 10000 basis points"@,
            SplurgeError::UnauthorizedAdmin => "Signer not authorized as config admin"@,
            SplurgeError::AdminAlreadyAssigned => "Address is the config admin already"@,
            SplurgeError::MintAlreadyWhitelisted => "Mint is whitelisted already"@,
            SplurgeError::MintNotWhitelisted => "Mint is not whitelisted"@,
            SplurgeError::CannotRemoveAllWhitelistedMints => "Cannot remove all whitelisted mints"@,
            SplurgeError::PlatformPaused => "Platform paused, no new orders can be created"@,
            SplurgeError::PaymentMintNotAccepted => "Payment mint is not accepted"@,
            SplurgeError::InvalidPriceUpdateV2 => "Price update v2 does not match with any accepted mint"@,
            SplurgeError::ShopperNameRequired => "Shopper name is required"@,
            SplurgeError::ShopperNameTooLong => "Shopper name exceeded maximum length"@,
            SplurgeError::ShopperImageRequired => "Shopper image is required"@,
            SplurgeError::ShopperAddressRequired => "Shopper address is required"@,
            SplurgeError::InvalidShopperAuthority => "Shopper authority does not match provided authority"@,
            SplurgeError::StoreNameRequired => "Store name is required"@,
            SplurgeError::StoreNameTooLong => "Store name exceeded maximum length"@,
            SplurgeError::StoreImageRequired => "Store image is required"@,
            SplurgeError::InvalidStoreAuthority => "Store authority does not match provided authority"@,
            SplurgeError::ItemNameRequired => "Store item name is required"@,
            SplurgeError::ItemNameTooLong => "Store item name exceeded maximum length"@,
            SplurgeError::ItemImageRequired => "Store item image is required"@,
            SplurgeError::InvalidItemStore => "Item does not belong to provided store"@,
            SplurgeError::InvalidAmount => "Order amount must be above 0"@,
            SplurgeError::InsufficientInventory => "Store item has insufficient inventory to fulfill order"@,
            SplurgeError::OrderAlreadyFinalized => "Order already finalized"@,
            SplurgeError::OrderNotPending => "Order status is not pending"@,
            SplurgeError::OrderNotBeingShipped => "Order status is not shipping"@,
            SplurgeError::OrderAlreadyCompleted => "Order already completed"@,
            SplurgeError::OrderNotCompleted => "Order not completed"@,
            SplurgeError::InvalidOrderStatus => "Order completion must be done through complete_order instruction"@,
            SplurgeError::InvalidOrderPaymentMint => "Order payment mint does not match provided mint"@,
            SplurgeError::InvalidOrderShopper => "Order does not belong to provided shopper"@,
            SplurgeError::InvalidOrderItem => "Order does not refer to provided item"@,
            SplurgeError::InvalidOrderAddress => "Order address cannot be the address of another account"@,
            SplurgeError::InvalidStoreAddress => "Store address cannot be the address of another account"@,
            SplurgeError::InvalidRating => "Rating must be between 1 and 5"@,
            SplurgeError::DuplicateReview => "Order already has a review"@,
            SplurgeError::MathOverflow => "Math operation overflow"@,
            SplurgeError::InvalidPrice => "Oracle price must be above 0"@,
            SplurgeError::StalePrice => "Oracle price is older than the maximum staleness"@,
            SplurgeError::InvalidTreasury => "Treasury does not match config treasury"@,
            SplurgeError::InvalidTokenAccount => "Token account does not exist"@,
            SplurgeError::NonEmptyTokenAccount => "Token account still holds a balance"@,
            SplurgeError::InsufficientFunds => "Token account has insufficient funds"@,
        }
    }

    /// The human-readable message of this failure.
    pub fn message(&self) -> (text: &'static str)
        ensures
            text@ == self.message_text(),
    {
        match self {
            SplurgeError::InvalidAddress => "Address cannot be default pubkey",
            SplurgeError::InvalidTimestamp => "Timestamp cannot be in the future",
            SplurgeError::EmptyAcceptedMints => "Whitelist cannot be empty",
            SplurgeError::InvalidOrderFee => "Order fee cannot exceed 10000 basis points",
            SplurgeError::UnauthorizedAdmin => "Signer not authorized as config admin",
            SplurgeError::AdminAlreadyAssigned => "Address is the config admin already",
            SplurgeError::MintAlreadyWhitelisted => "Mint is whitelisted already",
            SplurgeError::MintNotWhitelisted => "Mint is not whitelisted",
            SplurgeError::CannotRemoveAllWhitelistedMints => "Cannot remove all whitelisted mints",
            SplurgeError::PlatformPaused => "Platform paused, no new orders can be created",
            SplurgeError::PaymentMintNotAccepted => "Payment mint is not accepted",
            SplurgeError::InvalidPriceUpdateV2 => "Price update v2 does not match with any accepted mint",
            SplurgeError::ShopperNameRequired => "Shopper name is required",
            SplurgeError::ShopperNameTooLong => "Shopper name exceeded maximum length",
            SplurgeError::ShopperImageRequired => "Shopper image is required",
            SplurgeError::ShopperAddressRequired => "Shopper address is required",
            SplurgeError::InvalidShopperAuthority => "Shopper authority does not match provided authority",
            SplurgeError::StoreNameRequired => "Store name is required",
            SplurgeError::StoreNameTooLong => "Store name exceeded maximum length",
            SplurgeError::StoreImageRequired => "Store image is required",
            SplurgeError::InvalidStoreAuthority => "Store authority does not match provided authority",
            SplurgeError::ItemNameRequired => "Store item name is required",
            SplurgeError::ItemNameTooLong => "Store item name exceeded maximum length",
            SplurgeError::ItemImageRequired => "Store item image is required",
            SplurgeError::InvalidItemStore => "Item does not belong to provided store",
            SplurgeError::InvalidAmount => "Order amount must be above 0",
            SplurgeError::InsufficientInventory => "Store item has insufficient inventory to fulfill order",
            SplurgeError::OrderAlreadyFinalized => "Order already finalized",
            SplurgeError::OrderNotPending => "Order status is not pending",
            SplurgeError::OrderNotBeingShipped => "Order status is not shipping",
            SplurgeError::OrderAlreadyCompleted => "Order already completed",
            SplurgeError::OrderNotCompleted => "Order not completed",
            SplurgeError::InvalidOrderStatus => "Order completion must be done through complete_order instruction",
            SplurgeError::InvalidOrderPaymentMint => "Order payment mint does not match provided mint",
            SplurgeError::InvalidOrderShopper => "Order does not belong to provided shopper",
            SplurgeError::InvalidOrderItem => "Order does not refer to provided item",
            SplurgeError::InvalidOrderAddress => "Order address cannot be the address of another account",
            SplurgeError::InvalidStoreAddress => "Store address cannot be the address of another account",
            SplurgeError::InvalidRating => "Rating must be between 1 and 5",
            SplurgeError::DuplicateReview => "Order already has a review",
            SplurgeError::MathOverflow => "Math operation overflow",
            SplurgeError::InvalidPrice => "Oracle price must be above 0",
            SplurgeError::StalePrice => "Oracle price is older than the maximum staleness",
            SplurgeError::InvalidTreasury => "Treasury does not match config treasury",
            SplurgeError::InvalidTokenAccount => "Token account does not exist",
            SplurgeError::NonEmptyTokenAccount => "Token account still holds a balance",
            SplurgeError::InsufficientFunds => "Token account has insufficient funds",
        }
    }
}

} // verus!
