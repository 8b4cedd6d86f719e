use splurge::address::Address;
use splurge::error::SplurgeError;
use splurge::events::{ItemListed, ShopperInitialized, StoreInitialized};
use splurge::instructions::{
    update_store, CreateItem, CreateItemArgs, CreateReview, CreateReviewArgs, CreateShopper,
    CreateShopperArgs, CreateStore, CreateStoreArgs, DeleteItem, InitializeShopper,
    InitializeShopperArgs, InitializeStore, InitializeStoreArgs, ListItem, ListItemArgs,
    UnlistItem, UpdateItem, UpdateItemArgs, UpdateStore,
};
use splurge::program::{
    create_review, initialize_shopper, initialize_store, list_item, unlist_item, update_item,
};
use splurge::state::{Item, Order, OrderStatus, Review, Shopper, Store};

fn id(n: u128) -> Address {
    Address::new(n, n)
}

fn text(s: &str) -> String {
    String::from(s)
}

fn long(n: usize) -> String {
    "x".repeat(n)
}

fn shop() -> Store {
    Store { authority: id(4), bump: 9, name: text("Corner shop"), image: text("i"), about: text("a") }
}

fn tea() -> Item {
    Item {
        store: id(6),
        price: 150,
        inventory_count: 10,
        bump: 8,
        name: text("Tea"),
        image: text("tea.png"),
        description: text("Green"),
    }
}

#[test]
fn initialize_shopper_stores_the_profile() {
    let ctx = InitializeShopper { authority: id(3), shopper_key: id(5), bump: 7 };
    let args = InitializeShopperArgs { name: text("Ada"), image: text(""), address: text("1 Main Street") };
    let (shopper, event) = InitializeShopper::handler(&ctx, args, 99).unwrap();
    assert_eq!(
        shopper,
        Shopper { authority: id(3), bump: 7, name: text("Ada"), image: text(""), address: text("1 Main Street") }
    );
    assert_eq!(event, ShopperInitialized { shopper: id(5), authority: id(3), timestamp: 99 });
    assert_eq!(shopper.check_invariant(), Ok(()));
}

#[test]
fn initialize_shopper_checks_the_texts() {
    let ctx = InitializeShopper { authority: id(3), shopper_key: id(5), bump: 7 };
    let with = |name: String, address: &str| InitializeShopperArgs { name, image: text(""), address: text(address) };
    assert_eq!(initialize_shopper(&ctx, with(text(""), "x"), 0).err(), Some(SplurgeError::ShopperNameRequired));
    assert_eq!(initialize_shopper(&ctx, with(text(""), ""), 0).err(), Some(SplurgeError::ShopperNameRequired));
    assert_eq!(initialize_shopper(&ctx, with(long(65), "x"), 0).err(), Some(SplurgeError::ShopperNameTooLong));
    assert!(initialize_shopper(&ctx, with(long(64), "x"), 0).is_ok());
    assert_eq!(initialize_shopper(&ctx, with(text("Ada"), ""), 0).err(), Some(SplurgeError::ShopperAddressRequired));
    // The limit counts bytes: 22 letters of three bytes each are 66 bytes.
    assert_eq!(
        initialize_shopper(&ctx, with("\u{20AC}".repeat(22), "x"), 0).err(),
        Some(SplurgeError::ShopperNameTooLong)
    );
    assert!(initialize_shopper(&ctx, with("\u{20AC}".repeat(21), "x"), 0).is_ok());
    let nobody = InitializeShopper { authority: Address::default(), shopper_key: id(5), bump: 7 };
    assert_eq!(initialize_shopper(&nobody, with(text("Ada"), "x"), 0).err(), Some(SplurgeError::InvalidAddress));
}

#[test]
fn initialize_store_stores_the_profile() {
    let ctx = InitializeStore { authority: id(4), store_key: id(6), bump: 9 };
    let args = InitializeStoreArgs { name: text("Corner shop"), image: text(""), about: text("") };
    let (store, event) = InitializeStore::handler(&ctx, args, 5).unwrap();
    assert_eq!(
        store,
        Store { authority: id(4), bump: 9, name: text("Corner shop"), image: text(""), about: text("") }
    );
    assert_eq!(event, StoreInitialized { store: id(6), authority: id(4), timestamp: 5 });
}

#[test]
fn initialize_store_checks_the_name() {
    let ctx = InitializeStore { authority: id(4), store_key: id(6), bump: 9 };
    let with = |name: String| InitializeStoreArgs { name, image: text(""), about: text("") };
    assert_eq!(initialize_store(&ctx, with(text("")), 0).err(), Some(SplurgeError::StoreNameRequired));
    assert_eq!(initialize_store(&ctx, with(long(65)), 0).err(), Some(SplurgeError::StoreNameTooLong));
    assert!(initialize_store(&ctx, with(long(64)), 0).is_ok());
    let nobody = InitializeStore { authority: Address::default(), store_key: id(6), bump: 9 };
    assert_eq!(initialize_store(&nobody, with(text("s")), 0).err(), Some(SplurgeError::InvalidAddress));
}

#[test]
fn list_item_stores_the_item() {
    let ctx = ListItem { authority: id(4), item_key: id(7), bump: 8, store_key: id(6), store: shop() };
    let args = ListItemArgs {
        price: 150,
        inventory_count: 10,
        name: text("Tea"),
        image: text("tea.png"),
        description: text("Green"),
    };
    let (item, event) = ListItem::handler(&ctx, args, 77).unwrap();
    assert_eq!(item, tea());
    assert_eq!(event, ItemListed { item: id(7), timestamp: 77 });
}

#[test]
fn list_item_checks_the_authority_and_the_name() {
    let ctx = ListItem { authority: id(4), item_key: id(7), bump: 8, store_key: id(6), store: shop() };
    let with = |name: String| ListItemArgs {
        price: 1,
        inventory_count: 1,
        name,
        image: text(""),
        description: text(""),
    };
    assert_eq!(list_item(&ctx, with(text("")), 0).err(), Some(SplurgeError::ItemNameRequired));
    assert_eq!(list_item(&ctx, with(long(33)), 0).err(), Some(SplurgeError::ItemNameTooLong));
    assert!(list_item(&ctx, with(long(32)), 0).is_ok());
    let stranger = ListItem { authority: id(3), ..ctx.clone() };
    assert_eq!(list_item(&stranger, with(text("Tea")), 0).err(), Some(SplurgeError::InvalidStoreAuthority));
    assert_eq!(list_item(&stranger, with(text("")), 0).err(), Some(SplurgeError::InvalidStoreAuthority));
    let nowhere = ListItem { store_key: Address::default(), ..ctx.clone() };
    assert_eq!(list_item(&nowhere, with(text("Tea")), 0).err(), Some(SplurgeError::InvalidAddress));
}

#[test]
fn update_item_sets_price_and_inventory() {
    let mut ctx = UpdateItem { authority: id(4), item: tea(), store_key: id(6), store: shop() };
    assert_eq!(UpdateItem::handler(&mut ctx, UpdateItemArgs { price: Some(200), inventory_count: None }), Ok(()));
    assert_eq!(ctx.item, Item { price: 200, ..tea() });
    assert_eq!(update_item(&mut ctx, UpdateItemArgs { price: None, inventory_count: Some(0) }), Ok(()));
    assert_eq!(ctx.item, Item { price: 200, inventory_count: 0, ..tea() });
    assert_eq!(update_item(&mut ctx, UpdateItemArgs { price: None, inventory_count: None }), Ok(()));
    assert_eq!(ctx.item, Item { price: 200, inventory_count: 0, ..tea() });
    assert_eq!(
        update_item(&mut ctx, UpdateItemArgs { price: Some(u64::MAX), inventory_count: Some(u32::MAX) }),
        Ok(())
    );
    assert_eq!(ctx.item, Item { price: u64::MAX, inventory_count: u32::MAX, ..tea() });
}

#[test]
fn update_item_refusals_change_nothing() {
    let args = UpdateItemArgs { price: Some(1), inventory_count: Some(1) };
    let mut ctx = UpdateItem { authority: id(3), item: tea(), store_key: id(6), store: shop() };
    assert_eq!(update_item(&mut ctx, args), Err(SplurgeError::InvalidStoreAuthority));
    assert_eq!(ctx.item, tea());
    let mut ctx = UpdateItem { authority: id(4), item: tea(), store_key: id(9), store: shop() };
    assert_eq!(update_item(&mut ctx, args), Err(SplurgeError::InvalidItemStore));
    assert_eq!(ctx.item, tea());
    let orphan = Item { store: Address::default(), ..tea() };
    let mut ctx = UpdateItem { authority: id(4), item: orphan.clone(), store_key: Address::default(), store: shop() };
    assert_eq!(update_item(&mut ctx, args), Err(SplurgeError::InvalidAddress));
    assert_eq!(ctx.item, orphan);
}

#[test]
fn unlist_item_takes_the_item_away() {
    let mut ctx = UnlistItem { authority: id(4), item: Some(tea()), store_key: id(6), store: shop() };
    assert_eq!(UnlistItem::handler(&mut ctx), Ok(()));
    assert_eq!(ctx.item, None);
    assert_eq!(unlist_item(&mut ctx), Err(SplurgeError::InvalidItemStore));
    let mut ctx = UnlistItem { authority: id(3), item: Some(tea()), store_key: id(6), store: shop() };
    assert_eq!(unlist_item(&mut ctx), Err(SplurgeError::InvalidStoreAuthority));
    assert_eq!(ctx.item, Some(tea()));
    let mut ctx = UnlistItem { authority: id(4), item: Some(tea()), store_key: id(9), store: shop() };
    assert_eq!(unlist_item(&mut ctx), Err(SplurgeError::InvalidItemStore));
    assert_eq!(ctx.item, Some(tea()));
}

#[test]
fn delete_item_takes_the_item_away() {
    let mut ctx = DeleteItem { authority: id(4), item: Some(tea()), store_key: id(6), store: shop() };
    assert_eq!(DeleteItem::delete_item(&mut ctx), Ok(()));
    assert_eq!(ctx.item, None);
    assert_eq!(DeleteItem::delete_item(&mut ctx), Err(SplurgeError::InvalidItemStore));
    let mut ctx = DeleteItem { authority: id(3), item: Some(tea()), store_key: id(6), store: shop() };
    assert_eq!(DeleteItem::delete_item(&mut ctx), Err(SplurgeError::InvalidStoreAuthority));
    assert_eq!(ctx.item, Some(tea()));
}

fn completed(status: OrderStatus) -> Order {
    Order {
        shopper: id(5),
        item: id(7),
        timestamp: 10,
        status,
        amount: 3,
        payment_subtotal: 450,
        platform_fee: 12,
        payment_mint: id(100),
        bump: 1,
    }
}

fn reviewer(status: OrderStatus) -> CreateReview {
    CreateReview {
        authority: id(3),
        shopper_key: id(5),
        shopper: Shopper { authority: id(3), bump: 7, name: text("Ada"), image: text(""), address: text("x") },
        order_key: id(8),
        order: completed(status),
        review: None,
        review_bump: 2,
    }
}

#[test]
fn create_review_stores_the_review() {
    for rating in 1..=5u8 {
        let mut ctx = reviewer(OrderStatus::Completed);
        assert_eq!(
            CreateReview::handler(&mut ctx, CreateReviewArgs { text: text("Good"), rating }, 50),
            Ok(())
        );
        assert_eq!(
            ctx.review,
            Some(Review { order: id(8), rating, timestamp: 50, bump: 2, text: text("Good") })
        );
        assert_eq!(ctx.order, completed(OrderStatus::Completed));
    }
}

#[test]
fn create_review_is_given_once() {
    let mut ctx = reviewer(OrderStatus::Completed);
    assert_eq!(create_review(&mut ctx, CreateReviewArgs { text: text("Good"), rating: 5 }, 50), Ok(()));
    let first = ctx.review.clone();
    assert_eq!(
        create_review(&mut ctx, CreateReviewArgs { text: text("Bad"), rating: 1 }, 60),
        Err(SplurgeError::DuplicateReview)
    );
    assert_eq!(ctx.review, first);
}

#[test]
fn create_review_refusals_change_nothing() {
    let good = || CreateReviewArgs { text: text("Good"), rating: 5 };
    for rating in [0u8, 6, 255] {
        let mut ctx = reviewer(OrderStatus::Completed);
        assert_eq!(
            create_review(&mut ctx, CreateReviewArgs { text: text(""), rating }, 50),
            Err(SplurgeError::InvalidRating)
        );
        assert_eq!(ctx, reviewer(OrderStatus::Completed));
    }
    for status in [OrderStatus::Pending, OrderStatus::Shipping, OrderStatus::Cancelled] {
        let mut ctx = reviewer(status);
        assert_eq!(create_review(&mut ctx, good(), 50), Err(SplurgeError::OrderNotCompleted));
        assert_eq!(ctx, reviewer(status));
    }
    let mut ctx = CreateReview { authority: id(4), ..reviewer(OrderStatus::Completed) };
    assert_eq!(create_review(&mut ctx, good(), 50), Err(SplurgeError::InvalidShopperAuthority));
    let mut ctx = CreateReview { shopper_key: id(6), ..reviewer(OrderStatus::Completed) };
    assert_eq!(create_review(&mut ctx, good(), 50), Err(SplurgeError::InvalidOrderShopper));
    let mut ctx = CreateReview { order_key: Address::default(), ..reviewer(OrderStatus::Completed) };
    assert_eq!(create_review(&mut ctx, good(), 50), Err(SplurgeError::InvalidAddress));
    assert_eq!(ctx.review, None);
}

#[test]
fn create_shopper_asks_for_an_image() {
    let ctx = CreateShopper { authority: id(3), bump: 7 };
    let with = |name: String, image: &str, address: &str| CreateShopperArgs {
        name,
        image: text(image),
        address: text(address),
    };
    assert_eq!(
        CreateShopper::create_shopper(&ctx, with(text("Ada"), "i", "a")),
        Ok(Shopper { authority: id(3), bump: 7, name: text("Ada"), image: text("i"), address: text("a") })
    );
    assert_eq!(CreateShopper::create_shopper(&ctx, with(text(""), "", "")).err(), Some(SplurgeError::ShopperNameRequired));
    assert_eq!(CreateShopper::create_shopper(&ctx, with(long(65), "", "")).err(), Some(SplurgeError::ShopperNameTooLong));
    assert_eq!(CreateShopper::create_shopper(&ctx, with(text("Ada"), "", "")).err(), Some(SplurgeError::ShopperImageRequired));
    assert_eq!(CreateShopper::create_shopper(&ctx, with(text("Ada"), "i", "")).err(), Some(SplurgeError::ShopperAddressRequired));
    let nobody = CreateShopper { authority: Address::default(), bump: 7 };
    assert_eq!(CreateShopper::create_shopper(&nobody, with(text("Ada"), "i", "a")).err(), Some(SplurgeError::InvalidAddress));
}

#[test]
fn create_store_asks_for_an_image() {
    let ctx = CreateStore { authority: id(4), bump: 9 };
    let with = |name: String, image: &str| CreateStoreArgs { name, image: text(image), about: text("a") };
    assert_eq!(CreateStore::handler(&ctx, with(text("Corner shop"), "i")), Ok(shop()));
    assert_eq!(CreateStore::handler(&ctx, with(text(""), "")).err(), Some(SplurgeError::StoreNameRequired));
    assert_eq!(CreateStore::handler(&ctx, with(long(65), "")).err(), Some(SplurgeError::StoreNameTooLong));
    assert_eq!(CreateStore::handler(&ctx, with(long(64), "")).err(), Some(SplurgeError::StoreImageRequired));
    let nobody = CreateStore { authority: Address::default(), bump: 9 };
    assert_eq!(CreateStore::handler(&nobody, with(text("s"), "i")).err(), Some(SplurgeError::InvalidAddress));
}

#[test]
fn update_store_sets_the_texts() {
    let mut ctx = UpdateStore { authority: id(4), store: shop() };
    assert_eq!(update_store(&mut ctx, text("New"), text("n.png"), text("")), Ok(()));
    assert_eq!(ctx.store, Store { name: text("New"), image: text("n.png"), about: text(""), ..shop() });
    let before = ctx.clone();
    assert_eq!(update_store(&mut ctx, text(""), text("i"), text("a")), Err(SplurgeError::StoreNameRequired));
    assert_eq!(update_store(&mut ctx, long(65), text("i"), text("a")), Err(SplurgeError::StoreNameTooLong));
    assert_eq!(update_store(&mut ctx, text("s"), text(""), text("a")), Err(SplurgeError::StoreImageRequired));
    ctx.authority = id(3);
    assert_eq!(update_store(&mut ctx, text("s"), text("i"), text("a")), Err(SplurgeError::InvalidStoreAuthority));
    ctx.authority = id(4);
    assert_eq!(ctx, before);
}

#[test]
fn create_item_asks_for_an_image() {
    let ctx = CreateItem { authority: id(4), bump: 8, store_key: id(6), store: shop() };
    let with = |image: &str| CreateItemArgs {
        price: 150,
        inventory_count: 10,
        name: text("Tea"),
        image: text(image),
        description: text("Green"),
    };
    assert_eq!(CreateItem::create_item(&ctx, with("tea.png")), Ok(tea()));
    assert_eq!(CreateItem::create_item(&ctx, with("")).err(), Some(SplurgeError::ItemImageRequired));
    let stranger = CreateItem { authority: id(3), ..ctx.clone() };
    assert_eq!(CreateItem::create_item(&stranger, with("i")).err(), Some(SplurgeError::InvalidStoreAuthority));
    let nowhere = CreateItem { store_key: Address::default(), ..ctx.clone() };
    assert_eq!(CreateItem::create_item(&nowhere, with("i")).err(), Some(SplurgeError::InvalidAddress));
}

#[test]
fn validate_name_of_an_item() {
    assert_eq!(CreateItem::validate_name("Tea"), Ok(()));
    assert_eq!(CreateItem::validate_name(""), Err(SplurgeError::ItemNameRequired));
    assert_eq!(CreateItem::validate_name(&long(32)), Ok(()));
    assert_eq!(CreateItem::validate_name(&long(33)), Err(SplurgeError::ItemNameTooLong));
}

#[test]
fn space_of_the_records() {
    assert_eq!(Shopper::space("", "", ""), 53);
    assert_eq!(Shopper::space("Ada", "i", "1 Main Street"), 53 + 3 + 1 + 13);
    assert_eq!(Store::space("", "", ""), 53);
    assert_eq!(Store::space("Corner shop", "", "a"), 53 + 11 + 1);
    assert_eq!(Item::space("", "", ""), 65);
    assert_eq!(Item::space("Tea", "tea.png", "Green"), 65 + 3 + 7 + 5);
    assert_eq!(Review::space(""), 54);
    assert_eq!(Review::space("Good"), 58);
    // Space is counted in bytes.
    assert_eq!(Review::space("\u{20AC}"), 57);
}

#[test]
fn records_need_an_owner() {
    assert_eq!(tea().check_invariant(), Ok(()));
    assert_eq!(Item { store: Address::default(), ..tea() }.check_invariant(), Err(SplurgeError::InvalidAddress));
    assert_eq!(shop().check_invariant(), Ok(()));
    assert_eq!(Store { authority: Address::default(), ..shop() }.check_invariant(), Err(SplurgeError::InvalidAddress));
    let review = Review { order: id(8), rating: 5, timestamp: 0, bump: 0, text: text("") };
    assert_eq!(review.check_invariant(), Ok(()));
    assert_eq!(Review { order: Address::default(), ..review }.check_invariant(), Err(SplurgeError::InvalidAddress));
    // Half a null address is an address.
    assert!(!Address::new(0, 1).is_default());
    assert!(!Address::new(1, 0).is_default());
    assert!(Address::new(0, 0).is_default());
    assert_eq!(Address::default(), Address::new(0, 0));
}

#[test]
fn every_error_has_its_message() {
    let messages = [
        (SplurgeError::InvalidAddress, "Address cannot be default pubkey"),
        (SplurgeError::InvalidTimestamp, "Timestamp cannot be in the future"),
        (SplurgeError::EmptyAcceptedMints, "Whitelist cannot be empty"),
        (SplurgeError::InvalidOrderFee, "Order fee cannot exceed 10000 basis points"),
        (SplurgeError::UnauthorizedAdmin, "Signer not authorized as config admin"),
        (SplurgeError::AdminAlreadyAssigned, "Address is the config admin already"),
        (SplurgeError::MintAlreadyWhitelisted, "Mint is whitelisted already"),
        (SplurgeError::MintNotWhitelisted, "Mint is not whitelisted"),
        (SplurgeError::CannotRemoveAllWhitelistedMints, "Cannot remove all whitelisted mints"),
        (SplurgeError::PlatformPaused, "Platform paused, no new orders can be created"),
        (SplurgeError::PaymentMintNotAccepted, "Payment mint is not accepted"),
        (SplurgeError::InvalidPriceUpdateV2, "Price update v2 does not match with any accepted mint"),
        (SplurgeError::ShopperNameRequired, "Shopper name is required"),
        (SplurgeError::ShopperNameTooLong, "Shopper name exceeded maximum length"),
        (SplurgeError::ShopperImageRequired, "Shopper image is required"),
        (SplurgeError::ShopperAddressRequired, "Shopper address is required"),
        (SplurgeError::InvalidShopperAuthority, "Shopper authority does not match provided authority"),
        (SplurgeError::StoreNameRequired, "Store name is required"),
        (SplurgeError::StoreNameTooLong, "Store name exceeded maximum length"),
        (SplurgeError::StoreImageRequired, "Store image is required"),
        (SplurgeError::InvalidStoreAuthority, "Store authority does not match provided authority"),
        (SplurgeError::ItemNameRequired, "Store item name is required"),
        (SplurgeError::ItemNameTooLong, "Store item name exceeded maximum length"),
        (SplurgeError::ItemImageRequired, "Store item image is required"),
        (SplurgeError::InvalidItemStore, "Item does not belong to provided store"),
        (SplurgeError::InvalidAmount, "Order amount must be above 0"),
        (SplurgeError::InsufficientInventory, "Store item has insufficient inventory to fulfill order"),
        (SplurgeError::OrderAlreadyFinalized, "Order already finalized"),
        (SplurgeError::OrderNotPending, "Order status is not pending"),
        (SplurgeError::OrderNotBeingShipped, "Order status is not shipping"),
        (SplurgeError::OrderAlreadyCompleted, "Order already completed"),
        (SplurgeError::OrderNotCompleted, "Order not completed"),
        (SplurgeError::InvalidOrderStatus, "Order completion must be done through complete_order instruction"),
        (SplurgeError::InvalidOrderPaymentMint, "Order payment mint does not match provided mint"),
        (SplurgeError::InvalidOrderShopper, "Order does not belong to provided shopper"),
        (SplurgeError::InvalidOrderItem, "Order does not refer to provided item"),
        (SplurgeError::InvalidOrderAddress, "Order address cannot be the address of another account"),
        (SplurgeError::InvalidStoreAddress, "Store address cannot be the address of another account"),
        (SplurgeError::InvalidRating, "Rating must be between 1 and 5"),
        (SplurgeError::DuplicateReview, "Order already has a review"),
        (SplurgeError::MathOverflow, "Math operation overflow"),
        (SplurgeError::InvalidPrice, "Oracle price must be above 0"),
        (SplurgeError::StalePrice, "Oracle price is older than the maximum staleness"),
        (SplurgeError::InvalidTreasury, "Treasury does not match config treasury"),
        (SplurgeError::InvalidTokenAccount, "Token account does not exist"),
        (SplurgeError::NonEmptyTokenAccount, "Token account still holds a balance"),
        (SplurgeError::InsufficientFunds, "Token account has insufficient funds"),
    ];
    assert_eq!(messages.len(), 47);
    for (error, message) in messages {
        assert_eq!(error.message(), message);
    }
}
