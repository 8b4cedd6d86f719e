//! Adding payment tokens to the plain whitelist.

use vstd::prelude::*;
use crate::address::Address;
use crate::error::SplurgeError;
use crate::state::splurge_config::{contains_mint, SplurgeConfig};

verus! {

/// The accounts of the addition.
#[derive(Clone, Debug, PartialEq, Eq)]
pub struct AddWhitelistedMint {
    /// The signer, who must be the admin
    pub admin: Address,
    pub splurge_config: SplurgeConfig,
}

/// Whether one of `mints` is whitelisted already.
pub open spec fn any_whitelisted(whitelist: Seq<Address>, mints: Seq<Address>) -> bool {
    exists|i: int| 0 <= i < mints.len() && whitelist.contains(#[trigger] mints[i])
}

/// Appends `mints` to the whitelist, if the signer is the admin and none of
/// them is whitelisted already. On failure nothing has changed.
pub fn add_whitelisted_mint(ctx: &mut AddWhitelistedMint, mints: Vec<Address>) -> (r: Result<
    (),
    SplurgeError,
>)
    ensures
        r == (if old(ctx).splurge_config.admin != old(ctx).admin {
            Err::<(), SplurgeError>(SplurgeError::UnauthorizedAdmin)
        } else if any_whitelisted(old(ctx).splurge_config.whitelisted_mints@, mints@) {
            Err::<(), SplurgeError>(SplurgeError::MintAlreadyWhitelisted)
        } else {
            Ok::<(), SplurgeError>(())
        }),
        r is Err ==> *final(ctx) == *old(ctx),
        r is Ok ==> {
            &&& final(ctx).splurge_config.whitelisted_mints@
                == old(ctx).splurge_config.whitelisted_mints@ + mints@
            &&& final(ctx).admin == old(ctx).admin
            &&& final(ctx).splurge_config.admin == old(ctx).splurge_config.admin
            &&& final(ctx).splurge_config.bump == old(ctx).splurge_config.bump
        },
{
    if ctx.splurge_config.admin != ctx.admin {
        return Err(SplurgeError::UnauthorizedAdmin);
    }
    let mut i: usize = 0;
    while i < mints.len()
        invariant
            i <= mints@.len(),
            *ctx == *old(ctx),
            ctx.splurge_config.admin == ctx.admin,
            forall|j: int|
                0 <= j < i ==> !ctx.splurge_config.whitelisted_mints@.contains(
                    #[trigger] mints@[j],
                ),
        decreases mints@.len() - i,
    {
        if contains_mint(&ctx.splurge_config.whitelisted_mints, mints[i]) {
            return Err(SplurgeError::MintAlreadyWhitelisted);
        }
        i = i + 1;
    }
    let mut k: usize = 0;
    while k < mints.len()
        invariant
            k <= mints@.len(),
            ctx.admin == old(ctx).admin,
            ctx.splurge_config.admin == old(ctx).splurge_config.admin,
            ctx.splurge_config.bump == old(ctx).splurge_config.bump,
            ctx.splurge_config.whitelisted_mints@ == old(ctx).splurge_config.whitelisted_mints@
                + mints@.take(k as int),
        decreases mints@.len() - k,
    {
        ctx.splurge_config.whitelisted_mints.push(mints[k]);
        k = k + 1;
    }
    Ok(())
}

} // verus!
