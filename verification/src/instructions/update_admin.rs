//! Handing the plain whitelist to a new admin, as an update.

use vstd::prelude::*;
use crate::address::Address;
use crate::error::SplurgeError;
use crate::instructions::set_admin::admin_change_outcome;
use crate::state::splurge_config::SplurgeConfig;

verus! {

/// The accounts of the change.
#[derive(Clone, Debug, PartialEq, Eq)]
pub struct UpdateAdmin {
    /// The signer, who must be the admin
    pub authority: Address,
    pub splurge_config: SplurgeConfig,
}

/// Makes `new_admin` the admin, if the signer is the admin and `new_admin` is
/// another address. On failure nothing has changed.
pub fn update_admin(ctx: &mut UpdateAdmin, new_admin: Address) -> (r: Result<(), SplurgeError>)
    ensures
        r == admin_change_outcome(old(ctx).splurge_config, old(ctx).authority, new_admin),
        r is Err ==> *final(ctx) == *old(ctx),
        r is Ok ==> *final(ctx) == (UpdateAdmin {
            splurge_config: SplurgeConfig { admin: new_admin, ..old(ctx).splurge_config },
            ..*old(ctx)
        }),
{
    if ctx.splurge_config.admin != ctx.authority {
        return Err(SplurgeError::UnauthorizedAdmin);
    }
    if ctx.splurge_config.admin == new_admin {
        return Err(SplurgeError::AdminAlreadyAssigned);
    }
    ctx.splurge_config.admin = new_admin;
    Ok(())
}

} // verus!
