use splurge::address::Address;
use splurge::error::SplurgeError;
use splurge::escrow::{fund, refund, release, sweep};
use splurge::ledger::Ledger;

fn who(n: u128) -> Address {
    Address::new(n, 0)
}

const USD: u128 = 100;
const EUR: u128 = 101;

fn funded(entries: &[(u128, u128, u64)]) -> Ledger {
    let mut ledger = Ledger::new();
    for (owner, mint, amount) in entries {
        ledger.create_balance_holder(who(*owner), who(*mint));
        ledger.deposit(who(*owner), who(*mint), *amount).unwrap();
    }
    ledger
}

fn bal(ledger: &Ledger, owner: u128, mint: u128) -> Option<u64> {
    ledger.balance(who(owner), who(mint))
}

#[test]
fn new_ledger_has_no_holders() {
    let ledger = Ledger::new();
    assert_eq!(bal(&ledger, 1, USD), None);
}

#[test]
fn holders_are_kept_by_owner_and_token() {
    let ledger = funded(&[(1, USD, 5), (1, EUR, 6), (2, USD, 7)]);
    assert_eq!(bal(&ledger, 1, USD), Some(5));
    assert_eq!(bal(&ledger, 1, EUR), Some(6));
    assert_eq!(bal(&ledger, 2, USD), Some(7));
    assert_eq!(bal(&ledger, 2, EUR), None);
    assert_eq!(ledger.balance(Address::new(0, 1), who(USD)), None);
}

#[test]
fn opening_an_open_holder_keeps_its_balance() {
    let mut ledger = funded(&[(1, USD, 5)]);
    ledger.create_balance_holder(who(1), who(USD));
    assert_eq!(bal(&ledger, 1, USD), Some(5));
    ledger.create_balance_holder(who(2), who(USD));
    assert_eq!(bal(&ledger, 2, USD), Some(0));
}

#[test]
fn deposit_needs_an_open_holder_and_room() {
    let mut ledger = funded(&[(1, USD, 5)]);
    assert_eq!(ledger.deposit(who(2), who(USD), 1), Err(SplurgeError::InvalidTokenAccount));
    assert_eq!(ledger.deposit(who(1), who(USD), u64::MAX - 4), Err(SplurgeError::MathOverflow));
    assert_eq!(bal(&ledger, 1, USD), Some(5));
    assert_eq!(ledger.deposit(who(1), who(USD), u64::MAX - 5), Ok(()));
    assert_eq!(bal(&ledger, 1, USD), Some(u64::MAX));
}

#[test]
fn transfer_moves_the_amount() {
    let mut ledger = funded(&[(1, USD, 50), (2, USD, 7), (3, USD, 9)]);
    assert_eq!(ledger.transfer(who(1), who(2), 20, who(USD)), Ok(()));
    assert_eq!(bal(&ledger, 1, USD), Some(30));
    assert_eq!(bal(&ledger, 2, USD), Some(27));
    assert_eq!(bal(&ledger, 3, USD), Some(9));
    assert_eq!(ledger.transfer(who(1), who(2), 30, who(USD)), Ok(()));
    assert_eq!(bal(&ledger, 1, USD), Some(0));
    assert_eq!(bal(&ledger, 2, USD), Some(57));
    assert_eq!(ledger.transfer(who(1), who(2), 0, who(USD)), Ok(()));
    assert_eq!(bal(&ledger, 2, USD), Some(57));
}

#[test]
fn transfer_refusals_change_nothing() {
    let mut ledger = funded(&[(1, USD, 50), (2, USD, u64::MAX - 10), (1, EUR, 3)]);
    assert_eq!(ledger.transfer(who(1), who(2), 51, who(USD)), Err(SplurgeError::InsufficientFunds));
    assert_eq!(ledger.transfer(who(1), who(2), 11, who(USD)), Err(SplurgeError::MathOverflow));
    assert_eq!(ledger.transfer(who(1), who(3), 1, who(USD)), Err(SplurgeError::InvalidTokenAccount));
    assert_eq!(ledger.transfer(who(3), who(1), 1, who(USD)), Err(SplurgeError::InvalidTokenAccount));
    assert_eq!(ledger.transfer(who(1), who(2), 1, who(EUR)), Err(SplurgeError::InvalidTokenAccount));
    assert_eq!(bal(&ledger, 1, USD), Some(50));
    assert_eq!(bal(&ledger, 2, USD), Some(u64::MAX - 10));
    assert_eq!(bal(&ledger, 1, EUR), Some(3));
    assert_eq!(ledger.transfer(who(1), who(2), 10, who(USD)), Ok(()));
    assert_eq!(bal(&ledger, 2, USD), Some(u64::MAX));
}

#[test]
fn transfer_to_oneself_changes_nothing() {
    let mut ledger = funded(&[(1, USD, u64::MAX)]);
    assert_eq!(ledger.transfer(who(1), who(1), u64::MAX, who(USD)), Ok(()));
    assert_eq!(bal(&ledger, 1, USD), Some(u64::MAX));
    let mut small = funded(&[(1, USD, 5)]);
    assert_eq!(small.transfer(who(1), who(1), 6, who(USD)), Err(SplurgeError::InsufficientFunds));
}

#[test]
fn only_empty_holders_close() {
    let mut ledger = funded(&[(1, USD, 5), (2, USD, 0), (3, USD, 8)]);
    assert_eq!(ledger.close_balance_holder(who(1), who(USD)), Err(SplurgeError::NonEmptyTokenAccount));
    assert_eq!(ledger.close_balance_holder(who(4), who(USD)), Err(SplurgeError::InvalidTokenAccount));
    assert_eq!(ledger.close_balance_holder(who(2), who(USD)), Ok(()));
    assert_eq!(bal(&ledger, 2, USD), None);
    assert_eq!(bal(&ledger, 1, USD), Some(5));
    assert_eq!(bal(&ledger, 3, USD), Some(8));
    assert_eq!(ledger.close_balance_holder(who(2), who(USD)), Err(SplurgeError::InvalidTokenAccount));
}

#[test]
fn duplicate_is_a_copy() {
    let ledger = funded(&[(1, USD, 5), (2, USD, 7)]);
    let mut copy = ledger.duplicate();
    copy.transfer(who(1), who(2), 5, who(USD)).unwrap();
    assert_eq!(bal(&copy, 1, USD), Some(0));
    assert_eq!(bal(&copy, 2, USD), Some(12));
    assert_eq!(bal(&ledger, 1, USD), Some(5));
    assert_eq!(bal(&ledger, 2, USD), Some(7));
}

#[test]
fn fund_opens_the_escrow_and_pays() {
    let mut ledger = funded(&[(1, USD, 1000), (9, USD, 3)]);
    assert_eq!(fund(&mut ledger, who(1), who(5), who(9), who(USD), 450, 12), Ok(()));
    assert_eq!(bal(&ledger, 1, USD), Some(538));
    assert_eq!(bal(&ledger, 5, USD), Some(450));
    assert_eq!(bal(&ledger, 9, USD), Some(15));
}

#[test]
fn fund_refusals_change_nothing() {
    let mut ledger = funded(&[(1, USD, 461), (9, USD, 3), (6, USD, 1), (7, USD, 0)]);
    // The payer can pay the subtotal but not the fee on top.
    assert_eq!(
        fund(&mut ledger, who(1), who(5), who(9), who(USD), 450, 12),
        Err(SplurgeError::InsufficientFunds)
    );
    assert_eq!(bal(&ledger, 5, USD), None);
    assert_eq!(bal(&ledger, 1, USD), Some(461));
    assert_eq!(
        fund(&mut ledger, who(1), who(6), who(9), who(USD), 450, 11),
        Err(SplurgeError::NonEmptyTokenAccount)
    );
    assert_eq!(
        fund(&mut ledger, who(1), who(5), who(8), who(USD), 450, 11),
        Err(SplurgeError::InvalidTokenAccount)
    );
    assert_eq!(
        fund(&mut ledger, who(2), who(5), who(9), who(USD), 450, 11),
        Err(SplurgeError::InvalidTokenAccount)
    );
    assert_eq!(bal(&ledger, 5, USD), None);
    assert_eq!(bal(&ledger, 1, USD), Some(461));
    assert_eq!(bal(&ledger, 9, USD), Some(3));
    // An escrow that is open but empty is used as it is.
    assert_eq!(fund(&mut ledger, who(1), who(7), who(9), who(USD), 450, 11), Ok(()));
    assert_eq!(bal(&ledger, 7, USD), Some(450));
    assert_eq!(bal(&ledger, 1, USD), Some(0));
    assert_eq!(bal(&ledger, 9, USD), Some(14));
}

#[test]
fn refund_returns_subtotal_and_fee() {
    let mut ledger = funded(&[(5, USD, 450), (9, USD, 15)]);
    assert_eq!(refund(&mut ledger, who(5), who(1), who(9), who(USD), 450, 12), Ok(()));
    assert_eq!(bal(&ledger, 1, USD), Some(462));
    assert_eq!(bal(&ledger, 5, USD), None);
    assert_eq!(bal(&ledger, 9, USD), Some(3));
}

#[test]
fn refund_refusals_change_nothing() {
    let mut ledger = funded(&[(5, USD, 450), (9, USD, 11), (1, USD, 1)]);
    assert_eq!(
        refund(&mut ledger, who(5), who(1), who(9), who(USD), 450, 12),
        Err(SplurgeError::InsufficientFunds)
    );
    assert_eq!(
        refund(&mut ledger, who(5), who(1), who(9), who(USD), 449, 11),
        Err(SplurgeError::NonEmptyTokenAccount)
    );
    assert_eq!(
        refund(&mut ledger, who(5), who(1), who(9), who(USD), 451, 11),
        Err(SplurgeError::InsufficientFunds)
    );
    assert_eq!(
        refund(&mut ledger, who(4), who(1), who(9), who(USD), 450, 11),
        Err(SplurgeError::InvalidTokenAccount)
    );
    assert_eq!(bal(&ledger, 5, USD), Some(450));
    assert_eq!(bal(&ledger, 9, USD), Some(11));
    assert_eq!(bal(&ledger, 1, USD), Some(1));
    assert_eq!(bal(&ledger, 2, USD), None);
}

#[test]
fn release_pays_the_store() {
    let mut ledger = funded(&[(5, USD, 450)]);
    assert_eq!(release(&mut ledger, who(5), who(3), who(USD), 450), Ok(()));
    assert_eq!(bal(&ledger, 3, USD), Some(450));
    assert_eq!(bal(&ledger, 5, USD), None);
    let mut short = funded(&[(5, USD, 450), (3, USD, 1)]);
    assert_eq!(
        release(&mut short, who(5), who(3), who(USD), 449),
        Err(SplurgeError::NonEmptyTokenAccount)
    );
    assert_eq!(
        release(&mut short, who(5), who(3), who(USD), 451),
        Err(SplurgeError::InsufficientFunds)
    );
    assert_eq!(bal(&short, 5, USD), Some(450));
    assert_eq!(bal(&short, 3, USD), Some(1));
}

#[test]
fn sweep_moves_everything() {
    let mut ledger = funded(&[(3, USD, 450), (4, USD, 5)]);
    assert_eq!(sweep(&mut ledger, who(3), who(4), who(USD), false), Ok(450));
    assert_eq!(bal(&ledger, 3, USD), Some(0));
    assert_eq!(bal(&ledger, 4, USD), Some(455));
    assert_eq!(sweep(&mut ledger, who(4), who(6), who(USD), true), Ok(455));
    assert_eq!(bal(&ledger, 4, USD), None);
    assert_eq!(bal(&ledger, 6, USD), Some(455));
    assert_eq!(sweep(&mut ledger, who(4), who(6), who(USD), true), Err(SplurgeError::InvalidTokenAccount));
    // Sweeping to oneself and closing fails on the balance that stays.
    assert_eq!(sweep(&mut ledger, who(6), who(6), who(USD), true), Err(SplurgeError::NonEmptyTokenAccount));
    assert_eq!(sweep(&mut ledger, who(6), who(6), who(USD), false), Ok(455));
    assert_eq!(bal(&ledger, 6, USD), Some(455));
}
