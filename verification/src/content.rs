//! Published items and their publication.

use vstd::prelude::*;
use crate::error::SubscriptionError;
use crate::identity::Identity;
use crate::provider::ContentProvider;

verus! {

/// The longest id of a published item, in characters.
pub const MAX_CONTENT_ID_LEN: usize = 64;

/// The longest digest of a published item, in characters: room for a 256-bit
/// digest written in hexadecimal.
pub const MAX_CONTENT_HASH_LEN: usize = 64;

/// The closed set of kinds of content.
#[derive(Clone, Copy, Debug, PartialEq, Eq, Structural)]
pub enum ContentType {
    Video,
    Article,
    Audio,
    Other,
}

/// A published item: which provider it belongs to, its id, the digest that
/// proves what was published, its kind, and when it was published. Id and
/// digest are of bounded length. No operation changes a record once it is
/// filled.
#[derive(Clone, Debug, PartialEq, Eq)]
pub struct Content {
    pub provider: Identity,
    pub content_id: String,
    pub content_hash: String,
    pub content_type: ContentType,
    pub timestamp: i64,
}

/// An id and a digest are within the lengths that a record may hold.
pub open spec fn within_bounds(content_id: Seq<char>, content_hash: Seq<char>) -> bool {
    content_id.len() <= MAX_CONTENT_ID_LEN && content_hash.len() <= MAX_CONTENT_HASH_LEN
}

impl Content {
    /// Id and digest of the record are within their bounds.
    pub open spec fn well_formed(&self) -> bool {
        within_bounds(self.content_id@, self.content_hash@)
    }
}

/// Whether an id and a digest are within the lengths that a record may hold.
pub fn content_fits(content_id: &str, content_hash: &str) -> (r: bool)
    ensures
        r == within_bounds(content_id@, content_hash@),
{
    content_id.unicode_len() <= MAX_CONTENT_ID_LEN && content_hash.unicode_len()
        <= MAX_CONTENT_HASH_LEN
}

/// The records handed to `add_content`: the provider with the key of its
/// record, the content record being created, and the identity that
/// publishes.
#[derive(Clone, Debug, PartialEq, Eq)]
pub struct AddContent {
    pub content_provider_key: Identity,
    pub content_provider: ContentProvider,
    pub content: Content,
    pub authority: Identity,
}

/// The record that publishing creates.
pub open spec fn published(
    provider_key: Identity,
    content_id: String,
    content_hash: String,
    content_type: ContentType,
    current_time: i64,
) -> Content {
    Content {
        provider: provider_key,
        content_id,
        content_hash,
        content_type,
        timestamp: current_time,
    }
}

/// Publishes an item for a provider, under an id and a digest that are within
/// their bounds. Only the provider's authority may publish: anyone else is
/// refused with `Unauthorized`, and the record stays as it was. Otherwise the
/// record is filled with the provider's key, the id, the digest and the kind,
/// and stamped with `current_time`. Providers and subscriptions are not
/// touched.
pub fn add_content(
    ctx: &mut AddContent,
    content_id: String,
    content_hash: String,
    content_type: ContentType,
    current_time: i64,
) -> (r: Result<(), SubscriptionError>)
    requires
        within_bounds(content_id@, content_hash@),
    ensures
        old(ctx).content_provider.authority == old(ctx).authority ==> r == Ok::<
            (),
            SubscriptionError,
        >(()),
        old(ctx).content_provider.authority != old(ctx).authority ==> r == Err::<
            (),
            SubscriptionError,
        >(SubscriptionError::Unauthorized),
        r is Ok ==> final(ctx).content == published(
            old(ctx).content_provider_key,
            content_id,
            content_hash,
            content_type,
            current_time,
        ),
        r is Ok ==> final(ctx).content.well_formed(),
        r is Err ==> final(ctx).content == old(ctx).content,
        final(ctx).content_provider_key == old(ctx).content_provider_key,
        final(ctx).content_provider == old(ctx).content_provider,
        final(ctx).authority == old(ctx).authority,
{
    if !(ctx.content_provider.authority == ctx.authority) {
        return Err(SubscriptionError::Unauthorized);
    }
    ctx.content.provider = ctx.content_provider_key;
    ctx.content.content_id = content_id;
    ctx.content.content_hash = content_hash;
    ctx.content.content_type = content_type;
    ctx.content.timestamp = current_time;
    Ok(())
}

} // verus!
