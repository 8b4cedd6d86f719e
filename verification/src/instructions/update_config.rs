//! Changing the platform's configuration.

use vstd::prelude::*;
use crate::address::Address;
use crate::error::SplurgeError;
use crate::state::config::{
    check_rules, dedup_by_mint, deduplicated, lemma_deduplicated, rules_outcome, AcceptedMint,
    Config,
};

verus! {

/// What to change: each part that is `None` stays as it is.
#[derive(Clone, Debug, PartialEq, Eq)]
pub struct UpdateConfigArgs {
    pub new_admin: Option<Address>,
    pub new_treasury: Option<Address>,
    pub is_paused: Option<bool>,
    pub order_fee_bps: Option<u16>,
    pub accepted_mints: Option<Vec<AcceptedMint>>,
}

/// The accounts of the change.
#[derive(Clone, Debug, PartialEq, Eq)]
pub struct UpdateConfig {
    /// The signer, who must be the admin
    pub admin: Address,
    pub config: Config,
}

impl UpdateConfigArgs {
    /// The admin after the change.
    pub open spec fn admin_after(&self, config: Config) -> Address {
        match self.new_admin {
            Some(admin) => admin,
            None => config.admin,
        }
    }

    /// The treasury after the change.
    pub open spec fn treasury_after(&self, config: Config) -> Address {
        match self.new_treasury {
            Some(treasury) => treasury,
            None => config.treasury,
        }
    }

    /// Whether the platform is paused after the change.
    pub open spec fn paused_after(&self, config: Config) -> bool {
        match self.is_paused {
            Some(paused) => paused,
            None => config.is_paused,
        }
    }

    /// The fee after the change.
    pub open spec fn fee_after(&self, config: Config) -> u16 {
        match self.order_fee_bps {
            Some(fee) => fee,
            None => config.order_fee_bps,
        }
    }

    /// The list that the accepted tokens are taken from: the new one, if
    /// there is one.
    pub open spec fn mints_named(&self, config: Config) -> Seq<AcceptedMint> {
        match self.accepted_mints {
            Some(mints) => mints@,
            None => config.accepted_mints@,
        }
    }

    /// The accepted tokens after the change: the new list if there is one,
    /// without the entries whose token an earlier entry names already.
    pub open spec fn mints_after(&self, config: Config) -> Seq<AcceptedMint> {
        deduplicated(self.mints_named(config))
    }
}

impl UpdateConfig {
    /// What the check of the change finds: that the signer is not the admin,
    /// or the first rule that the configuration would break.
    pub open spec fn outcome(&self, args: UpdateConfigArgs) -> Result<(), SplurgeError> {
        if self.config.admin != self.admin {
            Err(SplurgeError::UnauthorizedAdmin)
        } else {
            rules_outcome(
                args.admin_after(self.config),
                args.treasury_after(self.config),
                args.fee_after(self.config),
                args.mints_after(self.config),
            )
        }
    }

    /// Changes the parts of the configuration that `args` names, if the
    /// signer is the admin and the configuration keeps its rules. On failure
    /// nothing has changed.
    pub fn handler(ctx: &mut UpdateConfig, args: UpdateConfigArgs) -> (r: Result<(), SplurgeError>)
        ensures
            r == old(ctx).outcome(args),
            r is Ok ==> {
                &&& final(ctx).config.valid()
                &&& final(ctx).admin == old(ctx).admin
                &&& final(ctx).config.admin == args.admin_after(old(ctx).config)
                &&& final(ctx).config.treasury == args.treasury_after(old(ctx).config)
                &&& final(ctx).config.is_paused == args.paused_after(old(ctx).config)
                &&& final(ctx).config.order_fee_bps == args.fee_after(old(ctx).config)
                &&& final(ctx).config.accepted_mints@ == args.mints_after(old(ctx).config)
                &&& final(ctx).config.bump == old(ctx).config.bump
                &&& final(ctx).config.reserved == old(ctx).config.reserved
            },
            r is Err ==> *final(ctx) == *old(ctx),
    {
        let ghost wanted = args.mints_named(ctx.config);
        let UpdateConfigArgs { new_admin, new_treasury, is_paused, order_fee_bps, accepted_mints } =
            args;
        if ctx.config.admin != ctx.admin {
            return Err(SplurgeError::UnauthorizedAdmin);
        }
        let admin = match new_admin {
            Some(admin) => admin,
            None => ctx.config.admin,
        };
        let treasury = match new_treasury {
            Some(treasury) => treasury,
            None => ctx.config.treasury,
        };
        let paused = match is_paused {
            Some(paused) => paused,
            None => ctx.config.is_paused,
        };
        let fee = match order_fee_bps {
            Some(fee) => fee,
            None => ctx.config.order_fee_bps,
        };
        proof {
            lemma_deduplicated(wanted);
        }
        let mints = match accepted_mints {
            Some(mints) => dedup_by_mint(&mints),
            None => dedup_by_mint(&ctx.config.accepted_mints),
        };
        match check_rules(admin, treasury, fee, &mints) {
            Ok(_) => {},
            Err(e) => {
                return Err(e);
            },
        }
        ctx.config.admin = admin;
        ctx.config.treasury = treasury;
        ctx.config.is_paused = paused;
        ctx.config.order_fee_bps = fee;
        ctx.config.accepted_mints = mints;
        Ok(())
    }
}

} // verus!
