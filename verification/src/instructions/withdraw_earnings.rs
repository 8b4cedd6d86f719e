//! Withdrawing what a store has earned.

use vstd::prelude::*;
use crate::address::Address;
use crate::error::SplurgeError;
use crate::escrow::{sweep, sweep_outcome};
use crate::ledger::{Holder, Ledger, Mint};
use crate::state::config::{accepts, Config};
use crate::state::store::Store;

verus! {

/// The accounts of a withdrawal of earnings.
#[derive(Clone, Debug, PartialEq, Eq)]
pub struct WithdrawEarnings {
    /// The signer, who must be the store's authority and is paid
    pub authority: Address,
    pub config: Config,
    /// The address of the store, which owns the store's balance
    pub store_key: Address,
    pub store: Store,
    pub payment_mint: Mint,
}

impl WithdrawEarnings {
    /// What the withdrawal comes to with the balances `balances`: the amount
    /// that moves and the balances after it, or the first reason why it is
    /// refused.
    pub open spec fn outcome(&self, balances: Map<Holder, u64>) -> Result<
        (u64, Map<Holder, u64>),
        SplurgeError,
    > {
        let from = Holder { owner: self.store_key, mint: self.payment_mint.key };
        let to = Holder { owner: self.authority, mint: self.payment_mint.key };
        if self.store.authority != self.authority {
            Err(SplurgeError::InvalidStoreAuthority)
        } else if !accepts(self.config.accepted_mints@, self.payment_mint.key) {
            Err(SplurgeError::PaymentMintNotAccepted)
        } else {
            match sweep_outcome(balances, from, to, true) {
                Err(e) => Err(e),
                Ok(moved) => Ok((balances[from], moved)),
            }
        }
    }

    /// Moves all that the store holds of the payment token to the store's
    /// authority, closes the store's holder, and returns the amount. Only the
    /// store's authority may do so. On failure the ledger is as it was.
    pub fn handler(ctx: &WithdrawEarnings, ledger: &mut Ledger) -> (r: Result<u64, SplurgeError>)
        ensures
            match ctx.outcome(old(ledger)@) {
                Ok((amount, balances)) => r == Ok::<u64, SplurgeError>(amount)
                    && final(ledger)@ == balances,
                Err(e) => r == Err::<u64, SplurgeError>(e) && final(ledger)@ == old(ledger)@,
            },
    {
        if ctx.store.authority != ctx.authority {
            return Err(SplurgeError::InvalidStoreAuthority);
        }
        match ctx.config.validate_mint(ctx.payment_mint.key) {
            Ok(_) => {},
            Err(e) => {
                return Err(e);
            },
        }
        sweep(ledger, ctx.store_key, ctx.authority, ctx.payment_mint.key, true)
    }
}

} // verus!
