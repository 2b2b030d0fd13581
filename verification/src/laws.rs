//! What holds of the operations taken together.

use vstd::prelude::*;
use crate::access::{access_authorized, access_outcome, AccessContext};
use crate::error::SubscriptionError;
use crate::identity::Identity;
use crate::ledger::{open_result, well_formed};
use crate::provider::ContentProvider;
use crate::payment::PaymentOutcome;
use crate::subscription::{
    opened, renewal_outcome, renewed, subscribe_outcome, toggled, window_fits, ProcessRenewal,
    Subscribe, Subscription,
};

verus! {

/// At most one record exists for a provider and a subscriber: two places of
/// a ledger's records that hold records of the same pair are the same place.
pub proof fn lemma_one_record_per_pair(records: Seq<Subscription>, i: int, j: int)
    requires
        well_formed(records),
        0 <= i < records.len(),
        0 <= j < records.len(),
        records[i].provider == records[j].provider,
        records[i].subscriber == records[j].subscriber,
    ensures
        i == j,
{
    if i < j {
        assert(!records[j].belongs_to(records[i].provider, records[i].subscriber));
    } else if j < i {
        assert(!records[i].belongs_to(records[j].provider, records[j].subscriber));
    }
}

/// Whatever the records, the start and the time, nothing is opened on a
/// failed payment.
pub proof fn lemma_failed_payment_opens_nothing(
    ctx: Subscribe,
    records: Seq<Subscription>,
    subscription_start: i64,
    current_time: i64,
)
    ensures
        subscribe_outcome(ctx, subscription_start, current_time, PaymentOutcome::Failure) is Err,
        open_result(
            records,
            ctx.content_provider_key,
            ctx.content_provider,
            ctx.subscriber,
            subscription_start,
            current_time,
            PaymentOutcome::Failure,
        ) is Err,
{
}

/// A subscription that was opened starts at the requested start and lasts
/// the provider's duration, whatever the current time was.
pub proof fn lemma_opened_window_lasts_the_duration(
    provider_key: Identity,
    provider: ContentProvider,
    subscriber: Identity,
    subscription_start: i64,
    current_time: i64,
)
    requires
        window_fits(subscription_start, provider.subscription_duration),
    ensures
        opened(
            provider_key,
            provider,
            subscriber,
            subscription_start,
            current_time,
        ).start_time == subscription_start,
        opened(provider_key, provider, subscriber, subscription_start, current_time).end_time
            - subscription_start == provider.subscription_duration,
        opened(provider_key, provider, subscriber, subscription_start, current_time).belongs_to(
            provider_key,
            subscriber,
        ),
        opened(
            provider_key,
            provider,
            subscriber,
            subscription_start,
            current_time,
        ).window_ordered(),
{
}

/// A renewal before the end of the window is refused, whatever the gateway
/// answered. Where auto-renewal is on, the refusal is
/// `SubscriptionStillActive`.
pub proof fn lemma_early_renewal_is_refused(
    ctx: ProcessRenewal,
    subscription: Subscription,
    current_time: i64,
    payment: PaymentOutcome,
)
    requires
        ctx.record() == Some(subscription),
        current_time < subscription.end_time,
    ensures
        renewal_outcome(ctx, current_time, payment) is Err,
        subscription.auto_renewal ==> renewal_outcome(ctx, current_time, payment) == Err::<
            (),
            SubscriptionError,
        >(SubscriptionError::SubscriptionStillActive),
{
}

/// A renewal chains the new window to the end of the old one: it starts at
/// the old end and lasts the duration, at whatever moment the renewal
/// happens. Two renewals of one record at different moments differ in
/// `last_payment` only.
pub proof fn lemma_renewal_chains_from_old_end(
    subscription: Subscription,
    duration: u64,
    sooner: i64,
    later: i64,
)
    requires
        window_fits(subscription.end_time, duration),
    ensures
        renewed(subscription, duration, sooner).start_time == subscription.end_time,
        renewed(subscription, duration, sooner).end_time == subscription.end_time + duration,
        renewed(subscription, duration, sooner).end_time - renewed(
            subscription,
            duration,
            sooner,
        ).start_time == duration,
        renewed(subscription, duration, later).start_time == renewed(
            subscription,
            duration,
            sooner,
        ).start_time,
        renewed(subscription, duration, later).end_time == renewed(
            subscription,
            duration,
            sooner,
        ).end_time,
        renewed(subscription, duration, sooner).window_ordered(),
{
}

/// Access is granted at both ends of the window: at `start_time` and at
/// `end_time` themselves.
pub proof fn lemma_access_granted_at_window_ends(ctx: AccessContext)
    requires
        access_authorized(ctx),
        ctx.subscription.window_ordered(),
    ensures
        access_outcome(ctx, ctx.subscription.start_time) is Ok,
        access_outcome(ctx, ctx.subscription.end_time) is Ok,
{
}

/// With an authorized caller, access is granted exactly inside the window.
pub proof fn lemma_access_exactly_in_window(ctx: AccessContext, current_time: i64)
    requires
        access_authorized(ctx),
    ensures
        access_outcome(ctx, current_time) is Ok <==> ctx.subscription.start_time <= current_time
            <= ctx.subscription.end_time,
{
}

/// Flipping the auto-renewal flag twice gives the record back as it was.
pub proof fn lemma_toggle_twice_restores(subscription: Subscription)
    ensures
        toggled(toggled(subscription)) == subscription,
        toggled(subscription).auto_renewal != subscription.auto_renewal,
{
}

} // verus!
