//! The access check: a subscription opens an item while its window lasts.

use vstd::prelude::*;
use crate::content::Content;
use crate::error::SubscriptionError;
use crate::identity::Identity;
use crate::subscription::{Subscription, SubscriptionState};

verus! {

/// The records handed to `access_content`: the item asked for, the
/// subscription shown for it, and the identity that asks.
#[derive(Clone, Debug, PartialEq, Eq)]
pub struct AccessContext {
    pub content: Content,
    pub subscription: Subscription,
    pub subscriber: Identity,
}

/// The subscription is the caller's own and is one with the provider of the
/// item.
pub open spec fn access_authorized(ctx: AccessContext) -> bool {
    ctx.subscription.belongs_to(ctx.content.provider, ctx.subscriber)
}

/// What an access check at `current_time` answers.
pub open spec fn access_outcome(ctx: AccessContext, current_time: i64) -> Result<
    (),
    SubscriptionError,
> {
    if !access_authorized(ctx) {
        Err(SubscriptionError::Unauthorized)
    } else if !ctx.subscription.covers(current_time) {
        Err(SubscriptionError::InactiveSubscription)
    } else {
        Ok(())
    }
}

/// Decides whether the caller may read the item at `current_time`.
///
/// A subscription that is not the caller's, or is with another provider than
/// the item's, is refused with `Unauthorized`. Otherwise access is granted if
/// and only if `start_time <= current_time <= end_time`, both ends included,
/// and denied with `InactiveSubscription` outside. Nothing is changed, so the
/// check can be repeated at will.
pub fn access_content(ctx: &AccessContext, current_time: i64) -> (r: Result<(), SubscriptionError>)
    ensures
        r == access_outcome(*ctx, current_time),
        r is Ok <==> access_authorized(*ctx) && ctx.subscription.start_time <= current_time
            <= ctx.subscription.end_time,
        r is Ok <==> access_authorized(*ctx) && ctx.subscription.state_at(current_time)
            == SubscriptionState::Active,
{
    if !(ctx.subscription.subscriber == ctx.subscriber && ctx.subscription.provider
        == ctx.content.provider) {
        return Err(SubscriptionError::Unauthorized);
    }
    if !ctx.subscription.is_active(current_time) {
        return Err(SubscriptionError::InactiveSubscription);
    }
    Ok(())
}

} // verus!
