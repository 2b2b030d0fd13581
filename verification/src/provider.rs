//! Content providers and their registration.

use vstd::prelude::*;
use crate::error::SubscriptionError;
use crate::identity::Identity;

verus! {

/// The longest subscription duration, in seconds, that a provider may
/// configure: the largest value a signed timestamp can hold.
pub const MAX_SUBSCRIPTION_DURATION: u64 = 9_223_372_036_854_775_807;

/// A content provider: who owns it, what a subscription period costs and how
/// long it lasts, and how many subscriptions were opened against it.
#[derive(Clone, Copy, Debug, PartialEq, Eq)]
pub struct ContentProvider {
    pub authority: Identity,
    pub subscription_price: u64,
    pub subscription_duration: u64,
    pub total_subscribers: u64,
}

/// The records handed to `initialize_content_provider`: the provider record
/// being created and the identity that registers it.
#[derive(Clone, Copy, Debug, PartialEq, Eq)]
pub struct InitializeContentProvider {
    pub content_provider: ContentProvider,
    pub authority: Identity,
}

/// Whether a price and a duration can be configured. Every price can; a
/// duration can if a timestamp can hold it.
pub open spec fn supported_configuration(subscription_price: u64, subscription_duration: u64) -> bool {
    subscription_duration <= MAX_SUBSCRIPTION_DURATION
}

/// The provider record that a registration creates.
pub open spec fn registered(
    authority: Identity,
    subscription_price: u64,
    subscription_duration: u64,
) -> ContentProvider {
    ContentProvider {
        authority,
        subscription_price,
        subscription_duration,
        total_subscribers: 0,
    }
}

/// Registers a provider: fills the record with the registering authority, the
/// price and the duration, and a subscriber count of zero. A duration that no
/// timestamp can hold is refused with `InvalidConfiguration`, and nothing is
/// written.
pub fn initialize_content_provider(
    ctx: &mut InitializeContentProvider,
    subscription_price: u64,
    subscription_duration: u64,
) -> (r: Result<(), SubscriptionError>)
    ensures
        supported_configuration(subscription_price, subscription_duration) ==> r == Ok::<
            (),
            SubscriptionError,
        >(()),
        !supported_configuration(subscription_price, subscription_duration) ==> r == Err::<
            (),
            SubscriptionError,
        >(SubscriptionError::InvalidConfiguration),
        r is Ok ==> final(ctx).content_provider == registered(
            old(ctx).authority,
            subscription_price,
            subscription_duration,
        ),
        r is Err ==> final(ctx).content_provider == old(ctx).content_provider,
        final(ctx).authority == old(ctx).authority,
{
    if subscription_duration > MAX_SUBSCRIPTION_DURATION {
        return Err(SubscriptionError::InvalidConfiguration);
    }
    ctx.content_provider.authority = ctx.authority;
    ctx.content_provider.subscription_price = subscription_price;
    ctx.content_provider.subscription_duration = subscription_duration;
    ctx.content_provider.total_subscribers = 0;
    Ok(())
}

} // verus!
