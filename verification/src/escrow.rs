//! The life of an order's escrow: funded when the order is created, emptied
//! and closed when the order is cancelled or completed.

use vstd::prelude::*;
use crate::address::Address;
use crate::error::SplurgeError;
use crate::ledger::{close_outcome, opened, transfer_outcome, Holder, Ledger};

verus! {

/// What a purchase makes of the balances: the escrow is opened, the subtotal
/// moves from the payer into it, and the fee moves from the payer to the
/// treasury. An escrow that holds something already is refused.
pub open spec fn fund_outcome(
    balances: Map<Holder, u64>,
    payer: Holder,
    escrow: Holder,
    treasury: Holder,
    subtotal: u64,
    fee: u64,
) -> Result<Map<Holder, u64>, SplurgeError> {
    if balances.dom().contains(escrow) && balances[escrow] != 0 {
        Err(SplurgeError::NonEmptyTokenAccount)
    } else {
        match transfer_outcome(opened(balances, escrow), payer, escrow, subtotal) {
            Err(e) => Err(e),
            Ok(funded) => transfer_outcome(funded, payer, treasury, fee),
        }
    }
}

/// What a cancellation makes of the balances: the subtotal moves from the
/// escrow back to the shopper, the escrow is closed, and the fee moves from
/// the treasury back to the shopper.
pub open spec fn refund_outcome(
    balances: Map<Holder, u64>,
    escrow: Holder,
    shopper: Holder,
    treasury: Holder,
    subtotal: u64,
    fee: u64,
) -> Result<Map<Holder, u64>, SplurgeError> {
    match transfer_outcome(opened(balances, shopper), escrow, shopper, subtotal) {
        Err(e) => Err(e),
        Ok(returned) => match close_outcome(returned, escrow) {
            Err(e) => Err(e),
            Ok(closed) => transfer_outcome(closed, treasury, shopper, fee),
        },
    }
}

/// What a completion makes of the balances: the subtotal moves from the
/// escrow to the store, and the escrow is closed.
pub open spec fn release_outcome(
    balances: Map<Holder, u64>,
    escrow: Holder,
    store: Holder,
    subtotal: u64,
) -> Result<Map<Holder, u64>, SplurgeError> {
    match transfer_outcome(opened(balances, store), escrow, store, subtotal) {
        Err(e) => Err(e),
        Ok(paid) => close_outcome(paid, escrow),
    }
}

/// What a withdrawal makes of the balances: all that `from` holds moves to
/// `to`, and `from` is closed if `close` says so.
pub open spec fn sweep_outcome(balances: Map<Holder, u64>, from: Holder, to: Holder, close: bool)
    -> Result<Map<Holder, u64>, SplurgeError> {
    if !balances.dom().contains(from) {
        Err(SplurgeError::InvalidTokenAccount)
    } else {
        match transfer_outcome(opened(balances, to), from, to, balances[from]) {
            Err(e) => Err(e),
            Ok(moved) => if close {
                close_outcome(moved, from)
            } else {
                Ok(moved)
            },
        }
    }
}

/// The balance of a holder, counting a holder that is not open as empty.
pub open spec fn held(balances: Map<Holder, u64>, holder: Holder) -> int {
    if balances.dom().contains(holder) {
        balances[holder] as int
    } else {
        0
    }
}

/// What a holder gains when `amount` goes to the holder `to`.
pub open spec fn gain(holder: Holder, to: Holder, amount: int) -> int {
    if holder == to {
        amount
    } else {
        0
    }
}

/// After funding, the escrow holds exactly the subtotal; every other holder
/// holds what it held, the treasury the fee more and the payer subtotal and
/// fee less. The escrow must be a holder of its own.
pub proof fn lemma_fund(
    balances: Map<Holder, u64>,
    payer: Holder,
    escrow: Holder,
    treasury: Holder,
    subtotal: u64,
    fee: u64,
)
    requires
        fund_outcome(balances, payer, escrow, treasury, subtotal, fee) is Ok,
        payer != escrow,
        escrow != treasury,
    ensures
        ({
            let after = fund_outcome(balances, payer, escrow, treasury, subtotal, fee)->Ok_0;
            &&& held(balances, escrow) == 0
            &&& after.dom().contains(escrow)
            &&& held(after, escrow) == subtotal
            &&& forall|h: Holder|
                h != escrow ==> held(after, h) == held(balances, h) + gain(h, treasury, fee as int)
                    - gain(h, payer, subtotal + fee) && after.dom().contains(h)
                    == balances.dom().contains(h)
        }),
{
    let open = opened(balances, escrow);
    let funded = transfer_outcome(open, payer, escrow, subtotal)->Ok_0;
    assert(funded == open.insert(payer, (open[payer] - subtotal) as u64).insert(
        escrow,
        (open[escrow] + subtotal) as u64,
    ));
    let after = transfer_outcome(funded, payer, treasury, fee)->Ok_0;
    if payer != treasury {
        assert(after == funded.insert(payer, (funded[payer] - fee) as u64).insert(
            treasury,
            (funded[treasury] + fee) as u64,
        ));
    }
}

/// A refund succeeds only from an escrow that holds exactly the subtotal, and
/// closes it; every other holder holds what it held, the shopper subtotal and
/// fee more and the treasury the fee less. The escrow must be a holder of its
/// own.
pub proof fn lemma_refund(
    balances: Map<Holder, u64>,
    escrow: Holder,
    shopper: Holder,
    treasury: Holder,
    subtotal: u64,
    fee: u64,
)
    requires
        refund_outcome(balances, escrow, shopper, treasury, subtotal, fee) is Ok,
        shopper != escrow,
        escrow != treasury,
    ensures
        ({
            let after = refund_outcome(balances, escrow, shopper, treasury, subtotal, fee)->Ok_0;
            &&& balances.dom().contains(escrow)
            &&& held(balances, escrow) == subtotal
            &&& !after.dom().contains(escrow)
            &&& held(after, escrow) == 0
            &&& forall|h: Holder|
                h != escrow ==> held(after, h) == held(balances, h) + gain(
                    h,
                    shopper,
                    subtotal + fee,
                ) - gain(h, treasury, fee as int)
        }),
{
    let open = opened(balances, shopper);
    let returned = transfer_outcome(open, escrow, shopper, subtotal)->Ok_0;
    assert(returned == open.insert(escrow, (open[escrow] - subtotal) as u64).insert(
        shopper,
        (open[shopper] + subtotal) as u64,
    ));
    let closed = close_outcome(returned, escrow)->Ok_0;
    assert(closed == returned.remove(escrow));
    let after = transfer_outcome(closed, treasury, shopper, fee)->Ok_0;
    if shopper != treasury {
        assert(after == closed.insert(treasury, (closed[treasury] - fee) as u64).insert(
            shopper,
            (closed[shopper] + fee) as u64,
        ));
    }
}

/// A release succeeds only from an escrow that holds exactly the subtotal,
/// and closes it; the store holds the subtotal more, and every other holder
/// holds what it held. The escrow must be a holder of its own.
pub proof fn lemma_release(
    balances: Map<Holder, u64>,
    escrow: Holder,
    store: Holder,
    subtotal: u64,
)
    requires
        release_outcome(balances, escrow, store, subtotal) is Ok,
        store != escrow,
    ensures
        ({
            let after = release_outcome(balances, escrow, store, subtotal)->Ok_0;
            &&& balances.dom().contains(escrow)
            &&& held(balances, escrow) == subtotal
            &&& !after.dom().contains(escrow)
            &&& held(after, escrow) == 0
            &&& forall|h: Holder|
                h != escrow ==> held(after, h) == held(balances, h) + gain(h, store, subtotal as int)
        }),
{
    let open = opened(balances, store);
    let paid = transfer_outcome(open, escrow, store, subtotal)->Ok_0;
    assert(paid == open.insert(escrow, (open[escrow] - subtotal) as u64).insert(
        store,
        (open[store] + subtotal) as u64,
    ));
    let after = close_outcome(paid, escrow)->Ok_0;
    assert(after == paid.remove(escrow));
}

/// Opens the escrow of `order` in the token `mint` and pays into it: the
/// subtotal from `payer` into the escrow, the fee from `payer` to `treasury`.
/// On failure the ledger is as it was.
pub fn fund(
    ledger: &mut Ledger,
    payer: Address,
    order: Address,
    treasury: Address,
    mint: Address,
    subtotal: u64,
    fee: u64,
) -> (r: Result<(), SplurgeError>)
    ensures
        match fund_outcome(
            old(ledger)@,
            Holder { owner: payer, mint },
            Holder { owner: order, mint },
            Holder { owner: treasury, mint },
            subtotal,
            fee,
        ) {
            Ok(balances) => r is Ok && final(ledger)@ == balances,
            Err(e) => r == Err::<(), SplurgeError>(e) && final(ledger)@ == old(ledger)@,
        },
{
    let mut scratch = ledger.duplicate();
    match scratch.balance(order, mint) {
        Some(held) => {
            if held != 0 {
                return Err(SplurgeError::NonEmptyTokenAccount);
            }
        },
        None => {},
    }
    scratch.create_balance_holder(order, mint);
    match scratch.transfer(payer, order, subtotal, mint) {
        Ok(_) => {},
        Err(e) => {
            return Err(e);
        },
    }
    match scratch.transfer(payer, treasury, fee, mint) {
        Ok(_) => {},
        Err(e) => {
            return Err(e);
        },
    }
    *ledger = scratch;
    Ok(())
}

/// Pays the escrow of `order` back: the subtotal from the escrow to
/// `shopper`, then the escrow is closed, then the fee from `treasury` to
/// `shopper`. On failure the ledger is as it was.
pub fn refund(
    ledger: &mut Ledger,
    order: Address,
    shopper: Address,
    treasury: Address,
    mint: Address,
    subtotal: u64,
    fee: u64,
) -> (r: Result<(), SplurgeError>)
    ensures
        match refund_outcome(
            old(ledger)@,
            Holder { owner: order, mint },
            Holder { owner: shopper, mint },
            Holder { owner: treasury, mint },
            subtotal,
            fee,
        ) {
            Ok(balances) => r is Ok && final(ledger)@ == balances,
            Err(e) => r == Err::<(), SplurgeError>(e) && final(ledger)@ == old(ledger)@,
        },
{
    let mut scratch = ledger.duplicate();
    scratch.create_balance_holder(shopper, mint);
    match scratch.transfer(order, shopper, subtotal, mint) {
        Ok(_) => {},
        Err(e) => {
            return Err(e);
        },
    }
    match scratch.close_balance_holder(order, mint) {
        Ok(_) => {},
        Err(e) => {
            return Err(e);
        },
    }
    match scratch.transfer(treasury, shopper, fee, mint) {
        Ok(_) => {},
        Err(e) => {
            return Err(e);
        },
    }
    *ledger = scratch;
    Ok(())
}

/// Pays the escrow of `order` out: the subtotal from the escrow to `store`,
/// then the escrow is closed. On failure the ledger is as it was.
pub fn release(ledger: &mut Ledger, order: Address, store: Address, mint: Address, subtotal: u64)
    -> (r: Result<(), SplurgeError>)
    ensures
        match release_outcome(
            old(ledger)@,
            Holder { owner: order, mint },
            Holder { owner: store, mint },
            subtotal,
        ) {
            Ok(balances) => r is Ok && final(ledger)@ == balances,
            Err(e) => r == Err::<(), SplurgeError>(e) && final(ledger)@ == old(ledger)@,
        },
{
    let mut scratch = ledger.duplicate();
    scratch.create_balance_holder(store, mint);
    match scratch.transfer(order, store, subtotal, mint) {
        Ok(_) => {},
        Err(e) => {
            return Err(e);
        },
    }
    match scratch.close_balance_holder(order, mint) {
        Ok(_) => {},
        Err(e) => {
            return Err(e);
        },
    }
    *ledger = scratch;
    Ok(())
}

/// Moves all that `from` holds of the token `mint` to `to`, and closes the
/// holder of `from` if `close` says so. On failure the ledger is as it was.
pub fn sweep(ledger: &mut Ledger, from: Address, to: Address, mint: Address, close: bool) -> (r:
    Result<u64, SplurgeError>)
    ensures
        match sweep_outcome(
            old(ledger)@,
            Holder { owner: from, mint },
            Holder { owner: to, mint },
            close,
        ) {
            Ok(balances) => r == Ok::<u64, SplurgeError>(
                old(ledger)@[Holder { owner: from, mint }],
            ) && final(ledger)@ == balances,
            Err(e) => r == Err::<u64, SplurgeError>(e) && final(ledger)@ == old(ledger)@,
        },
{
    let amount = match ledger.balance(from, mint) {
        Some(amount) => amount,
        None => {
            return Err(SplurgeError::InvalidTokenAccount);
        },
    };
    let mut scratch = ledger.duplicate();
    scratch.create_balance_holder(to, mint);
    match scratch.transfer(from, to, amount, mint) {
        Ok(_) => {},
        Err(e) => {
            return Err(e);
        },
    }
    if close {
        match scratch.close_balance_holder(from, mint) {
            Ok(_) => {},
            Err(e) => {
                return Err(e);
            },
        }
    }
    *ledger = scratch;
    Ok(amount)
}

} // verus!
