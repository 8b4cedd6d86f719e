//! Reviewing: the shopper of a completed order reviews it, once.

use vstd::prelude::*;
use crate::address::Address;
use crate::error::SplurgeError;
use crate::state::order::{Order, OrderStatus};
use crate::state::review::Review;
use crate::state::shopper::Shopper;

verus! {

/// What the shopper says of the order.
#[derive(Clone, Debug, PartialEq, Eq)]
pub struct CreateReviewArgs {
    pub text: String,
    pub rating: u8,
}

/// The accounts of a review.
#[derive(Clone, Debug, PartialEq, Eq)]
pub struct CreateReview {
    /// The signer, who must be the shopper's authority
    pub authority: Address,
    pub shopper_key: Address,
    pub shopper: Shopper,
    pub order_key: Address,
    pub order: Order,
    /// The review of the order, once it has one
    pub review: Option<Review>,
    pub review_bump: u8,
}

impl CreateReview {
    /// Why the review is refused, if it is: the first of these that holds.
    pub open spec fn refusal(&self, rating: u8) -> Option<SplurgeError> {
        if self.shopper.authority != self.authority {
            Some(SplurgeError::InvalidShopperAuthority)
        } else if self.order.shopper != self.shopper_key {
            Some(SplurgeError::InvalidOrderShopper)
        } else if self.order.status != OrderStatus::Completed {
            Some(SplurgeError::OrderNotCompleted)
        } else if self.review is Some {
            Some(SplurgeError::DuplicateReview)
        } else if rating < 1 || rating > 5 {
            Some(SplurgeError::InvalidRating)
        } else if self.order_key == Address::null() {
            Some(SplurgeError::InvalidAddress)
        } else {
            None
        }
    }

    /// Stores the review of the order at the time `now`. Only the shopper of
    /// the order may review it, only once it is `Completed`, only once, and
    /// with a rating from 1 to 5. On failure nothing has changed.
    pub fn handler(ctx: &mut CreateReview, args: CreateReviewArgs, now: i64) -> (r: Result<
        (),
        SplurgeError,
    >)
        ensures
            match old(ctx).refusal(args.rating) {
                None => {
                    &&& r is Ok
                    &&& *final(ctx) == (CreateReview {
                        review: Some(
                            Review {
                                order: old(ctx).order_key,
                                rating: args.rating,
                                timestamp: now,
                                bump: old(ctx).review_bump,
                                text: args.text,
                            },
                        ),
                        ..*old(ctx)
                    })
                },
                Some(e) => r == Err::<(), SplurgeError>(e) && *final(ctx) == *old(ctx),
            },
    {
        let CreateReviewArgs { text, rating } = args;
        if ctx.shopper.authority != ctx.authority {
            return Err(SplurgeError::InvalidShopperAuthority);
        }
        if ctx.order.shopper != ctx.shopper_key {
            return Err(SplurgeError::InvalidOrderShopper);
        }
        if ctx.order.status != OrderStatus::Completed {
            return Err(SplurgeError::OrderNotCompleted);
        }
        if ctx.review.is_some() {
            return Err(SplurgeError::DuplicateReview);
        }
        if !(rating >= 1 && rating <= 5) {
            return Err(SplurgeError::InvalidRating);
        }
        let review = Review {
            bump: ctx.review_bump,
            order: ctx.order_key,
            rating,
            timestamp: now,
            text,
        };
        match review.check_invariant() {
            Ok(_) => {},
            Err(e) => {
                return Err(e);
            },
        }
        ctx.review = Some(review);
        Ok(())
    }
}

} // verus!
