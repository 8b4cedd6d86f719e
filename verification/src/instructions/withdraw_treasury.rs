//! Withdrawing the fees that the treasury has collected.

use vstd::prelude::*;
use crate::address::Address;
use crate::error::SplurgeError;
use crate::escrow::{sweep, sweep_outcome};
use crate::ledger::{Holder, Ledger, Mint};
use crate::state::config::Config;

verus! {

/// The accounts of a withdrawal from the treasury.
#[derive(Clone, Debug, PartialEq, Eq)]
pub struct WithdrawTreasury {
    /// The signer, who must be the admin and is paid
    pub admin: Address,
    /// The address that collects the platform's fees
    pub treasury: Address,
    pub config: Config,
    pub payment_mint: Mint,
}

impl WithdrawTreasury {
    /// What the withdrawal comes to with the balances `balances`: the amount
    /// that moves and the balances after it, or the first reason why it is
    /// refused.
    pub open spec fn outcome(&self, balances: Map<Holder, u64>) -> Result<
        (u64, Map<Holder, u64>),
        SplurgeError,
    > {
        let from = Holder { owner: self.treasury, mint: self.payment_mint.key };
        let to = Holder { owner: self.admin, mint: self.payment_mint.key };
        if self.config.admin != self.admin {
            Err(SplurgeError::UnauthorizedAdmin)
        } else if self.config.treasury != self.treasury {
            Err(SplurgeError::InvalidTreasury)
        } else {
            match sweep_outcome(balances, from, to, false) {
                Err(e) => Err(e),
                Ok(moved) => Ok((balances[from], moved)),
            }
        }
    }

    /// Moves all that the treasury holds of the payment token to the admin,
    /// and returns the amount. Only the admin may do so. On failure the ledger
    /// is as it was.
    pub fn handler(ctx: &WithdrawTreasury, ledger: &mut Ledger) -> (r: Result<u64, SplurgeError>)
        ensures
            match ctx.outcome(old(ledger)@) {
                Ok((amount, balances)) => r == Ok::<u64, SplurgeError>(amount)
                    && final(ledger)@ == balances,
                Err(e) => r == Err::<u64, SplurgeError>(e) && final(ledger)@ == old(ledger)@,
            },
    {
        if ctx.config.admin != ctx.admin {
            return Err(SplurgeError::UnauthorizedAdmin);
        }
        if ctx.config.treasury != ctx.treasury {
            return Err(SplurgeError::InvalidTreasury);
        }
        sweep(ledger, ctx.treasury, ctx.admin, ctx.payment_mint.key, false)
    }
}

} // verus!
