//! The platform's configuration: who administers it, where fees go, what fee
//! is charged, and which payment tokens are accepted with which price feed.

use vstd::prelude::*;
use crate::address::Address;
use crate::constants::MAX_BASIS_POINTS;
use crate::error::SplurgeError;
use crate::state::shopper::DISCRIMINATOR_LEN;

verus! {

/// A payment token that the platform accepts, with the price feed that is
/// trusted for it.
#[derive(Clone, Copy, Debug, PartialEq, Eq, Structural)]
pub struct AcceptedMint {
    /// Mint address of the stablecoin
    pub mint: Address,
    /// Price feed account address of the stablecoin
    pub price_update_v2: Address,
}

impl AcceptedMint {
    /// The number of bytes that an entry takes when stored.
    pub const INIT_SPACE: usize = 64;
}

/// Whether the list has an entry for the token `mint`.
pub open spec fn accepts(mints: Seq<AcceptedMint>, mint: Address) -> bool {
    exists|i: int| 0 <= i < mints.len() && #[trigger] mints[i].mint == mint
}

/// Whether the list has an entry with the price feed `feed`.
pub open spec fn lists_feed(mints: Seq<AcceptedMint>, feed: Address) -> bool {
    exists|i: int| 0 <= i < mints.len() && #[trigger] mints[i].price_update_v2 == feed
}

/// The price feed of the first entry for the token `mint`, if there is one.
pub open spec fn feed_of(mints: Seq<AcceptedMint>, mint: Address) -> Option<Address>
    decreases mints.len(),
{
    if mints.len() == 0 {
        None
    } else if mints[0].mint == mint {
        Some(mints[0].price_update_v2)
    } else {
        feed_of(mints.drop_first(), mint)
    }
}

/// Whether no token has two entries.
pub open spec fn no_duplicates(mints: Seq<AcceptedMint>) -> bool {
    forall|i: int, j: int| 0 <= i < j < mints.len() ==> mints[i].mint != mints[j].mint
}

/// Whether some entry names the null address as its token or its feed.
pub open spec fn has_null_entry(mints: Seq<AcceptedMint>) -> bool {
    exists|i: int|
        0 <= i < mints.len() && (#[trigger] mints[i].mint == Address::null()
            || mints[i].price_update_v2 == Address::null())
}

/// The list without the entries whose token an earlier entry names already.
pub open spec fn deduplicated(mints: Seq<AcceptedMint>) -> Seq<AcceptedMint>
    decreases mints.len(),
{
    if mints.len() == 0 {
        mints
    } else if accepts(mints.drop_last(), mints.last().mint) {
        deduplicated(mints.drop_last())
    } else {
        deduplicated(mints.drop_last()).push(mints.last())
    }
}

/// A token has a feed in the list exactly when the list has an entry for it.
pub proof fn lemma_feed_of_accepts(mints: Seq<AcceptedMint>, mint: Address)
    ensures
        feed_of(mints, mint) is Some <==> accepts(mints, mint),
    decreases mints.len(),
{
    if mints.len() > 0 {
        let rest = mints.drop_first();
        lemma_feed_of_accepts(rest, mint);
        if mints[0].mint != mint {
            if accepts(mints, mint) {
                let i = choose|i: int| 0 <= i < mints.len() && #[trigger] mints[i].mint == mint;
                assert(rest[i - 1].mint == mint);
            }
            if accepts(rest, mint) {
                let i = choose|i: int| 0 <= i < rest.len() && #[trigger] rest[i].mint == mint;
                assert(mints[i + 1].mint == mint);
            }
        }
    }
}

/// Appending an entry changes the feed of a token only if the token had none
/// and the entry is for it.
pub proof fn lemma_feed_of_push(mints: Seq<AcceptedMint>, entry: AcceptedMint, mint: Address)
    ensures
        feed_of(mints.push(entry), mint) == (if feed_of(mints, mint) is Some {
            feed_of(mints, mint)
        } else if entry.mint == mint {
            Some(entry.price_update_v2)
        } else {
            None
        }),
    decreases mints.len(),
{
    let longer = mints.push(entry);
    if mints.len() == 0 {
        assert(longer.drop_first() =~= mints);
    } else {
        assert(longer.drop_first() =~= mints.drop_first().push(entry));
        if mints[0].mint != mint {
            lemma_feed_of_push(mints.drop_first(), entry, mint);
        }
    }
}

/// Removing duplicates keeps the first entry of every token and nothing else:
/// no token is left with two entries, every token keeps the feed of its first
/// entry, and the list does not grow.
pub proof fn lemma_deduplicated(mints: Seq<AcceptedMint>)
    ensures
        no_duplicates(deduplicated(mints)),
        deduplicated(mints).len() <= mints.len(),
        mints.len() > 0 ==> deduplicated(mints).len() > 0,
        forall|mint: Address| #[trigger]
            accepts(deduplicated(mints), mint) == accepts(mints, mint),
        forall|mint: Address| #[trigger]
            feed_of(deduplicated(mints), mint) == feed_of(mints, mint),
        forall|i: int|
            0 <= i < deduplicated(mints).len() ==> exists|j: int|
                0 <= j < mints.len() && mints[j] == #[trigger] deduplicated(mints)[i],
        has_null_entry(deduplicated(mints)) ==> has_null_entry(mints),
    decreases mints.len(),
{
    if mints.len() > 0 {
        let front = mints.drop_last();
        let last = mints.last();
        let kept = deduplicated(front);
        let out = deduplicated(mints);
        lemma_deduplicated(front);
        assert(mints =~= front.push(last));
        assert forall|mint: Address| #[trigger] accepts(out, mint) == accepts(mints, mint) by {
            if accepts(mints, mint) {
                let i = choose|i: int| 0 <= i < mints.len() && #[trigger] mints[i].mint == mint;
                if i < front.len() {
                    assert(front[i].mint == mint);
                }
                if accepts(front, mint) {
                    assert(accepts(kept, mint));
                    let k = choose|k: int| 0 <= k < kept.len() && #[trigger] kept[k].mint == mint;
                    assert(out[k].mint == mint);
                } else {
                    assert(out[kept.len() as int].mint == mint);
                }
            }
            if accepts(out, mint) {
                let k = choose|k: int| 0 <= k < out.len() && #[trigger] out[k].mint == mint;
                if k < kept.len() {
                    assert(kept[k].mint == mint);
                    assert(accepts(front, mint));
                    let i = choose|i: int| 0 <= i < front.len() && #[trigger] front[i].mint == mint;
                    assert(mints[i].mint == mint);
                } else {
                    assert(mints[mints.len() - 1].mint == mint);
                }
            }
        }
        assert forall|mint: Address| #[trigger] feed_of(out, mint) == feed_of(mints, mint) by {
            lemma_feed_of_push(front, last, mint);
            lemma_feed_of_accepts(front, mint);
            lemma_feed_of_accepts(kept, mint);
            if !accepts(front, last.mint) {
                lemma_feed_of_push(kept, last, mint);
            }
        }
        assert forall|i: int| 0 <= i < out.len() implies exists|j: int|
            0 <= j < mints.len() && mints[j] == #[trigger] out[i] by {
            if i < kept.len() {
                let j = choose|j: int| 0 <= j < front.len() && front[j] == kept[i];
                assert(mints[j] == out[i]);
            } else {
                assert(mints[mints.len() - 1] == out[i]);
            }
        }
        if !accepts(front, last.mint) {
            assert forall|i: int, j: int| 0 <= i < j < out.len() implies out[i].mint
                != out[j].mint by {
                if j == kept.len() && out[i].mint == last.mint {
                    assert(kept[i].mint == last.mint);
                }
            }
        }
        if has_null_entry(out) {
            let i = choose|i: int|
                0 <= i < out.len() && (#[trigger] out[i].mint == Address::null()
                    || out[i].price_update_v2 == Address::null());
            let j = choose|j: int| 0 <= j < mints.len() && mints[j] == out[i];
            assert(mints[j].mint == Address::null() || mints[j].price_update_v2
                == Address::null());
        }
    }
}

/// A list in which no token has two entries loses nothing when duplicates
/// are removed.
pub proof fn lemma_deduplicated_keeps_distinct(mints: Seq<AcceptedMint>)
    requires
        no_duplicates(mints),
    ensures
        deduplicated(mints) == mints,
    decreases mints.len(),
{
    if mints.len() > 0 {
        let front = mints.drop_last();
        assert forall|i: int, j: int| 0 <= i < j < front.len() implies front[i].mint
            != front[j].mint by {
            assert(front[i] == mints[i] && front[j] == mints[j]);
        }
        lemma_deduplicated_keeps_distinct(front);
        if accepts(front, mints.last().mint) {
            let i = choose|i: int|
                0 <= i < front.len() && #[trigger] front[i].mint == mints.last().mint;
            assert(mints[i].mint == mints[mints.len() - 1].mint);
        }
        assert(front.push(mints.last()) =~= mints);
    }
}

/// The list of accepted tokens without the entries whose token an earlier
/// entry names already.
pub fn dedup_by_mint(mints: &Vec<AcceptedMint>) -> (out: Vec<AcceptedMint>)
    ensures
        out@ == deduplicated(mints@),
{
    let mut out: Vec<AcceptedMint> = Vec::new();
    let mut i: usize = 0;
    while i < mints.len()
        invariant
            i <= mints@.len(),
            out@ == deduplicated(mints@.take(i as int)),
        decreases mints@.len() - i,
    {
        let entry = mints[i];
        let mut seen = false;
        let mut j: usize = 0;
        while j < i
            invariant
                j <= i < mints@.len(),
                entry == mints@[i as int],
                seen == accepts(mints@.take(j as int), entry.mint),
            decreases i - j,
        {
            if mints[j].mint == entry.mint {
                seen = true;
            }
            proof {
                let before = mints@.take(j as int);
                let after = mints@.take(j + 1);
                if accepts(before, entry.mint) {
                    let k = choose|k: int|
                        0 <= k < before.len() && #[trigger] before[k].mint == entry.mint;
                    assert(after[k].mint == entry.mint);
                }
                if mints@[j as int].mint == entry.mint {
                    assert(after[j as int].mint == entry.mint);
                }
                if accepts(after, entry.mint) {
                    let k = choose|k: int|
                        0 <= k < after.len() && #[trigger] after[k].mint == entry.mint;
                    if k < j {
                        assert(before[k].mint == entry.mint);
                    }
                }
            }
            j = j + 1;
        }
        proof {
            let next = mints@.take(i + 1);
            assert(next.drop_last() =~= mints@.take(i as int));
        }
        if !seen {
            out.push(entry);
        }
        i = i + 1;
    }
    assert(mints@.take(mints@.len() as int) =~= mints@);
    out
}

/// What the check of a configuration with these parts finds: the first of
/// the rules that is broken, if any is. Admin and treasury must not be null,
/// at least one token must be accepted, no entry may name a null address, and
/// the fee must not exceed all of the subtotal.
pub open spec fn rules_outcome(
    admin: Address,
    treasury: Address,
    order_fee_bps: u16,
    mints: Seq<AcceptedMint>,
) -> Result<(), SplurgeError> {
    if admin == Address::null() || treasury == Address::null() {
        Err(SplurgeError::InvalidAddress)
    } else if mints.len() == 0 {
        Err(SplurgeError::EmptyAcceptedMints)
    } else if has_null_entry(mints) {
        Err(SplurgeError::InvalidAddress)
    } else if order_fee_bps > MAX_BASIS_POINTS {
        Err(SplurgeError::InvalidOrderFee)
    } else {
        Ok(())
    }
}

/// Checks the rules of a configuration with these parts, and names the first
/// that is broken.
pub fn check_rules(
    admin: Address,
    treasury: Address,
    order_fee_bps: u16,
    mints: &Vec<AcceptedMint>,
) -> (r: Result<(), SplurgeError>)
    ensures
        r == rules_outcome(admin, treasury, order_fee_bps, mints@),
{
    if admin.is_default() {
        return Err(SplurgeError::InvalidAddress);
    }
    if treasury.is_default() {
        return Err(SplurgeError::InvalidAddress);
    }
    if mints.len() == 0 {
        return Err(SplurgeError::EmptyAcceptedMints);
    }
    let mut i: usize = 0;
    while i < mints.len()
        invariant
            i <= mints@.len(),
            forall|j: int|
                0 <= j < i ==> mints@[j].mint != Address::null() && mints@[j].price_update_v2
                    != Address::null(),
        decreases mints@.len() - i,
    {
        let entry = mints[i];
        if entry.mint.is_default() || entry.price_update_v2.is_default() {
            return Err(SplurgeError::InvalidAddress);
        }
        i = i + 1;
    }
    if order_fee_bps > MAX_BASIS_POINTS {
        return Err(SplurgeError::InvalidOrderFee);
    }
    Ok(())
}

/// The platform's configuration.
#[derive(Clone, Debug, PartialEq, Eq)]
pub struct Config {
    /// Address to which platform fees are sent to
    pub treasury: Address,
    /// Fee charged on each order in basis points
    pub order_fee_bps: u16,
    /// Address that has authority over the config
    pub admin: Address,
    /// Boolean indicating if new orders can be created
    pub is_paused: bool,
    /// Bump used for seed derivation
    pub bump: u8,
    /// List of stablecoin mints accepted as payment
    pub accepted_mints: Vec<AcceptedMint>,
    /// Reserved for future upgrades
    pub reserved: [u8; 64],
}

impl Config {
    /// The number of bytes that a configuration without accepted tokens takes
    /// when stored.
    pub const MIN_SPACE: usize = 144;

    /// The number of bytes that a configuration with these accepted tokens
    /// takes when stored.
    pub fn space(accepted_mints: &Vec<AcceptedMint>) -> (r: usize)
        requires
            144 + 64 * accepted_mints@.len() <= usize::MAX,
        ensures
            r == 144 + 64 * accepted_mints@.len(),
    {
        DISCRIMINATOR_LEN + 32 + 2 + 32 + 1 + 1 + 4 + (AcceptedMint::INIT_SPACE
            * accepted_mints.len()) + 64
    }

    /// What the check of the configuration finds: the first of its rules that
    /// is broken, if any is.
    pub open spec fn invariant_outcome(&self) -> Result<(), SplurgeError> {
        rules_outcome(self.admin, self.treasury, self.order_fee_bps, self.accepted_mints@)
    }

    /// Whether the configuration keeps all its rules: admin and treasury are
    /// not null, at least one token is accepted, no entry names a null
    /// address, the fee is at most all of the subtotal, and no token has two
    /// entries.
    pub open spec fn valid(&self) -> bool {
        self.invariant_outcome() is Ok && no_duplicates(self.accepted_mints@)
    }

    /// Whether the token `mint` is accepted as payment.
    pub fn is_token_accepted(&self, mint: Address) -> (r: bool)
        ensures
            r == accepts(self.accepted_mints@, mint),
    {
        let mut i: usize = 0;
        while i < self.accepted_mints.len()
            invariant
                i <= self.accepted_mints@.len(),
                forall|j: int| 0 <= j < i ==> self.accepted_mints@[j].mint != mint,
            decreases self.accepted_mints@.len() - i,
        {
            if self.accepted_mints[i].mint == mint {
                return true;
            }
            i = i + 1;
        }
        false
    }

    /// The price feed that is trusted for the token `mint`. Fails with
    /// `PaymentMintNotAccepted` when the token is not accepted.
    pub fn oracle_for(&self, mint: Address) -> (r: Result<Address, SplurgeError>)
        ensures
            r == (match feed_of(self.accepted_mints@, mint) {
                Some(feed) => Ok::<Address, SplurgeError>(feed),
                None => Err::<Address, SplurgeError>(SplurgeError::PaymentMintNotAccepted),
            }),
            r is Ok <==> accepts(self.accepted_mints@, mint),
    {
        proof {
            lemma_feed_of_accepts(self.accepted_mints@, mint);
            assert(self.accepted_mints@.skip(0) =~= self.accepted_mints@);
        }
        let mut i: usize = 0;
        while i < self.accepted_mints.len()
            invariant
                i <= self.accepted_mints@.len(),
                feed_of(self.accepted_mints@, mint) == feed_of(
                    self.accepted_mints@.skip(i as int),
                    mint,
                ),
            decreases self.accepted_mints@.len() - i,
        {
            let entry = self.accepted_mints[i];
            proof {
                let rest = self.accepted_mints@.skip(i as int);
                assert(rest.drop_first() =~= self.accepted_mints@.skip(i + 1));
            }
            if entry.mint == mint {
                return Ok(entry.price_update_v2);
            }
            i = i + 1;
        }
        Err(SplurgeError::PaymentMintNotAccepted)
    }

    /// Checks that the token `mint` is accepted as payment.
    pub fn validate_mint(&self, mint: Address) -> (r: Result<(), SplurgeError>)
        ensures
            r == (if accepts(self.accepted_mints@, mint) {
                Ok::<(), SplurgeError>(())
            } else {
                Err::<(), SplurgeError>(SplurgeError::PaymentMintNotAccepted)
            }),
    {
        if self.is_token_accepted(mint) {
            Ok(())
        } else {
            Err(SplurgeError::PaymentMintNotAccepted)
        }
    }

    /// Checks that `price_update_v2` is the price feed of an accepted token.
    pub fn validate_price_update_v2(&self, price_update_v2: Address) -> (r: Result<
        (),
        SplurgeError,
    >)
        ensures
            r == (if lists_feed(self.accepted_mints@, price_update_v2) {
                Ok::<(), SplurgeError>(())
            } else {
                Err::<(), SplurgeError>(SplurgeError::InvalidPriceUpdateV2)
            }),
    {
        let mut i: usize = 0;
        while i < self.accepted_mints.len()
            invariant
                i <= self.accepted_mints@.len(),
                forall|j: int|
                    0 <= j < i ==> self.accepted_mints@[j].price_update_v2 != price_update_v2,
            decreases self.accepted_mints@.len() - i,
        {
            if self.accepted_mints[i].price_update_v2 == price_update_v2 {
                return Ok(());
            }
            i = i + 1;
        }
        Err(SplurgeError::InvalidPriceUpdateV2)
    }

    /// Checks the rules of the configuration, and names the first that is
    /// broken.
    pub fn check_invariant(&self) -> (r: Result<(), SplurgeError>)
        ensures
            r == self.invariant_outcome(),
    {
        check_rules(self.admin, self.treasury, self.order_fee_bps, &self.accepted_mints)
    }
}

} // verus!
