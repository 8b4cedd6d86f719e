//! Taking payment tokens off the plain whitelist.

use vstd::prelude::*;
use crate::address::Address;
use crate::error::SplurgeError;
use crate::state::splurge_config::{contains_mint, SplurgeConfig};

verus! {

/// The accounts of the removal.
#[derive(Clone, Debug, PartialEq, Eq)]
pub struct RemoveWhitelistedMint {
    /// The signer, who must be the admin
    pub admin: Address,
    pub splurge_config: SplurgeConfig,
}

/// Whether one of `mints` is not whitelisted.
pub open spec fn any_missing(whitelist: Seq<Address>, mints: Seq<Address>) -> bool {
    exists|i: int| 0 <= i < mints.len() && !whitelist.contains(#[trigger] mints[i])
}

/// The whitelist without the tokens that `mints` names.
pub open spec fn without(whitelist: Seq<Address>, mints: Seq<Address>) -> Seq<Address> {
    whitelist.filter(|mint: Address| !mints.contains(mint))
}

/// What the check of a removal finds.
pub open spec fn removal_outcome(ctx: RemoveWhitelistedMint, mints: Seq<Address>) -> Result<
    (),
    SplurgeError,
> {
    if ctx.splurge_config.admin != ctx.admin {
        Err(SplurgeError::UnauthorizedAdmin)
    } else if any_missing(ctx.splurge_config.whitelisted_mints@, mints) {
        Err(SplurgeError::MintNotWhitelisted)
    } else if ctx.splurge_config.whitelisted_mints@.len() <= mints.len() {
        Err(SplurgeError::CannotRemoveAllWhitelistedMints)
    } else {
        Ok(())
    }
}

/// Takes `mints` off the whitelist, if the signer is the admin, all of them
/// are whitelisted, and they are fewer than the whitelist has entries. On
/// failure nothing has changed.
pub fn remove_whitelisted_mint(ctx: &mut RemoveWhitelistedMint, mints: Vec<Address>) -> (r:
    Result<(), SplurgeError>)
    ensures
        r == removal_outcome(*old(ctx), mints@),
        r is Err ==> *final(ctx) == *old(ctx),
        r is Ok ==> {
            &&& final(ctx).splurge_config.whitelisted_mints@ == without(
                old(ctx).splurge_config.whitelisted_mints@,
                mints@,
            )
            &&& final(ctx).admin == old(ctx).admin
            &&& final(ctx).splurge_config.admin == old(ctx).splurge_config.admin
            &&& final(ctx).splurge_config.bump == old(ctx).splurge_config.bump
        },
{
    if ctx.splurge_config.admin != ctx.admin {
        return Err(SplurgeError::UnauthorizedAdmin);
    }
    let mut i: usize = 0;
    while i < mints.len()
        invariant
            i <= mints@.len(),
            *ctx == *old(ctx),
            ctx.splurge_config.admin == ctx.admin,
            forall|j: int|
                0 <= j < i ==> ctx.splurge_config.whitelisted_mints@.contains(
                    #[trigger] mints@[j],
                ),
        decreases mints@.len() - i,
    {
        if !contains_mint(&ctx.splurge_config.whitelisted_mints, mints[i]) {
            return Err(SplurgeError::MintNotWhitelisted);
        }
        i = i + 1;
    }
    if ctx.splurge_config.whitelisted_mints.len() <= mints.len() {
        return Err(SplurgeError::CannotRemoveAllWhitelistedMints);
    }
    let ghost whitelist = ctx.splurge_config.whitelisted_mints@;
    let ghost keep = |mint: Address| !mints@.contains(mint);
    let mut kept: Vec<Address> = Vec::new();
    let mut k: usize = 0;
    while k < ctx.splurge_config.whitelisted_mints.len()
        invariant
            k <= whitelist.len(),
            *ctx == *old(ctx),
            whitelist == ctx.splurge_config.whitelisted_mints@,
            keep == |mint: Address| !mints@.contains(mint),
            kept@ == whitelist.take(k as int).filter(keep),
        decreases whitelist.len() - k,
    {
        let mint = ctx.splurge_config.whitelisted_mints[k];
        proof {
            let before = whitelist.take(k as int);
            assert(whitelist.take(k + 1) =~= before.push(mint));
            assert(before.push(mint).drop_last() =~= before);
            reveal(Seq::filter);
        }
        if !contains_mint(&mints, mint) {
            kept.push(mint);
        }
        k = k + 1;
    }
    assert(whitelist.take(whitelist.len() as int) =~= whitelist);
    ctx.splurge_config.whitelisted_mints = kept;
    Ok(())
}

} // verus!
