//! Changing the profile of a store.

use vstd::prelude::*;
use crate::address::Address;
use crate::error::SplurgeError;
use crate::instructions::create_store::{check_store_texts, store_texts_refusal};
use crate::state::store::Store;

verus! {

/// The accounts of the change.
#[derive(Clone, Debug, PartialEq, Eq)]
pub struct UpdateStore {
    /// The signer, who must be the store's authority
    pub authority: Address,
    pub store: Store,
}

/// Why the change of a store's profile is refused, if it is.
pub open spec fn store_update_refusal(ctx: UpdateStore, name: Seq<char>, image: Seq<char>)
    -> Option<SplurgeError> {
    if ctx.store.authority != ctx.authority {
        Some(SplurgeError::InvalidStoreAuthority)
    } else {
        store_texts_refusal(name, image)
    }
}

/// Sets name, image and description of the store. Only the store's authority
/// may do so; the name must be there and at most 64 bytes long, and the image
/// must be there. On failure nothing has changed.
pub fn update_store(ctx: &mut UpdateStore, name: String, image: String, about: String) -> (r:
    Result<(), SplurgeError>)
    ensures
        match store_update_refusal(*old(ctx), name@, image@) {
            Some(e) => r == Err::<(), SplurgeError>(e) && *final(ctx) == *old(ctx),
            None => r is Ok && *final(ctx) == (UpdateStore {
                store: Store { name, image, about, ..old(ctx).store },
                ..*old(ctx)
            }),
        },
{
    if ctx.store.authority != ctx.authority {
        return Err(SplurgeError::InvalidStoreAuthority);
    }
    match check_store_texts(name.as_str(), image.as_str()) {
        Ok(_) => {},
        Err(e) => {
            return Err(e);
        },
    }
    ctx.store.name = name;
    ctx.store.image = image;
    ctx.store.about = about;
    Ok(())
}

} // verus!
