//! Setting the platform up.

use vstd::prelude::*;
use crate::address::Address;
use crate::error::SplurgeError;
use crate::state::config::{
    check_rules, dedup_by_mint, deduplicated, lemma_deduplicated, rules_outcome, AcceptedMint,
    Config,
};

verus! {

/// What the platform starts with.
#[derive(Clone, Debug, PartialEq, Eq)]
pub struct InitializeConfigArgs {
    pub admin: Address,
    pub treasury: Address,
    pub order_fee_bps: u16,
    pub accepted_mints: Vec<AcceptedMint>,
}

/// The accounts of the setup.
#[derive(Clone, Copy, Debug, PartialEq, Eq, Structural)]
pub struct InitializeConfig {
    /// The signer, who deploys the platform
    pub authority: Address,
    /// Bump of the address of the configuration
    pub bump: u8,
}

impl InitializeConfig {
    /// The configuration that the platform starts with: not paused, with the
    /// accepted tokens deduplicated. Fails if admin or treasury is the null
    /// address, if no token is accepted, if an entry names a null address, or
    /// if the fee exceeds 10000 basis points.
    pub fn handler(ctx: &InitializeConfig, args: InitializeConfigArgs) -> (r: Result<
        Config,
        SplurgeError,
    >)
        ensures
            match rules_outcome(
                args.admin,
                args.treasury,
                args.order_fee_bps,
                deduplicated(args.accepted_mints@),
            ) {
                Ok(_) => {
                    &&& r is Ok
                    &&& r->Ok_0.valid()
                    &&& r->Ok_0.admin == args.admin
                    &&& r->Ok_0.treasury == args.treasury
                    &&& r->Ok_0.order_fee_bps == args.order_fee_bps
                    &&& !r->Ok_0.is_paused
                    &&& r->Ok_0.bump == ctx.bump
                    &&& r->Ok_0.accepted_mints@ == deduplicated(args.accepted_mints@)
                    &&& forall|i: int| 0 <= i < 64 ==> r->Ok_0.reserved[i] == 0
                },
                Err(e) => r is Err && r->Err_0 == e,
            },
    {
        let InitializeConfigArgs { admin, treasury, order_fee_bps, accepted_mints } = args;
        proof {
            lemma_deduplicated(accepted_mints@);
        }
        let accepted_mints = dedup_by_mint(&accepted_mints);
        match check_rules(admin, treasury, order_fee_bps, &accepted_mints) {
            Ok(_) => {},
            Err(e) => {
                return Err(e);
            },
        }
        Ok(
            Config {
                bump: ctx.bump,
                admin,
                treasury,
                is_paused: false,
                order_fee_bps,
                accepted_mints,
                reserved: [0; 64],
            },
        )
    }
}

} // verus!
