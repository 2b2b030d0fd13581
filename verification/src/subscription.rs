//! One subscription: its window, how it is opened and renewed, and its
//! auto-renewal flag.

use vstd::prelude::*;
use crate::error::SubscriptionError;
use crate::identity::Identity;
use crate::payment::{PaymentOutcome, PaymentRequest};
use crate::provider::ContentProvider;

verus! {

/// The entitlement of one subscriber with one provider: the window
/// `[start_time, end_time]` in which access is granted, when it was last paid
/// for, and whether it may be renewed once the window has elapsed.
#[derive(Clone, Copy, Debug, PartialEq, Eq)]
pub struct Subscription {
    pub subscriber: Identity,
    pub provider: Identity,
    pub start_time: i64,
    pub end_time: i64,
    pub last_payment: i64,
    pub auto_renewal: bool,
}

/// Where a moment stands with respect to the window of a subscription.
#[derive(Clone, Copy, Debug, PartialEq, Eq, Structural)]
pub enum SubscriptionState {
    /// The window has not started yet.
    FutureScheduled,
    /// The moment lies in the window, both ends included.
    Active,
    /// The window has ended.
    Expired,
}

impl Subscription {
    /// The window does not end before it starts.
    pub open spec fn window_ordered(&self) -> bool {
        self.start_time <= self.end_time
    }

    /// `now` lies in the window, both ends included.
    pub open spec fn covers(&self, now: i64) -> bool {
        self.start_time <= now <= self.end_time
    }

    /// The record is the one of this provider and this subscriber.
    pub open spec fn belongs_to(&self, provider: Identity, subscriber: Identity) -> bool {
        self.provider == provider && self.subscriber == subscriber
    }

    /// The state of the subscription at `now`: scheduled before the window,
    /// active within it, expired after it.
    pub open spec fn state_at(&self, now: i64) -> SubscriptionState {
        if now < self.start_time {
            SubscriptionState::FutureScheduled
        } else if now <= self.end_time {
            SubscriptionState::Active
        } else {
            SubscriptionState::Expired
        }
    }

    /// The state of the subscription at `now`.
    pub fn state(&self, now: i64) -> (r: SubscriptionState)
        ensures
            r == self.state_at(now),
            r == SubscriptionState::Active <==> self.covers(now),
            self.window_ordered() ==> (r == SubscriptionState::FutureScheduled <==> now
                < self.start_time),
            self.window_ordered() ==> (r == SubscriptionState::Expired <==> now > self.end_time),
    {
        if now < self.start_time {
            SubscriptionState::FutureScheduled
        } else if now <= self.end_time {
            SubscriptionState::Active
        } else {
            SubscriptionState::Expired
        }
    }

    /// Whether `now` lies in the window, both ends included.
    pub fn is_active(&self, now: i64) -> (r: bool)
        ensures
            r == self.covers(now),
    {
        self.start_time <= now && now <= self.end_time
    }
}

/// A window that starts at `start` and lasts `duration` seconds ends at a
/// moment that a timestamp can hold.
pub open spec fn window_fits(start: i64, duration: u64) -> bool {
    start + duration <= i64::MAX
}

/// The end of the window that starts at `start` and lasts `duration` seconds,
/// or `None` where no timestamp can hold it.
pub fn window_end(start: i64, duration: u64) -> (r: Option<i64>)
    ensures
        window_fits(start, duration) ==> r == Some((start + duration) as i64),
        !window_fits(start, duration) ==> r is None,
{
    let end: i128 = start as i128 + duration as i128;
    if end <= i64::MAX as i128 {
        Some(end as i64)
    } else {
        None
    }
}

/// The payment that opens or renews a subscription: the provider's price,
/// from the subscriber to the provider's authority.
pub open spec fn payment_due(provider: ContentProvider, subscriber: Identity) -> PaymentRequest {
    PaymentRequest {
        from: subscriber,
        to: provider.authority,
        amount: provider.subscription_price,
    }
}

/// The records handed to `subscribe`: the provider with the key of its
/// record, the subscriber, and the record that the subscriber has with the
/// provider: none before a subscription is opened, the new one after.
#[derive(Clone, Copy, Debug, PartialEq, Eq)]
pub struct Subscribe {
    pub content_provider_key: Identity,
    pub content_provider: ContentProvider,
    pub subscription: Option<Subscription>,
    pub subscriber: Identity,
}

/// The record that opening a subscription creates.
pub open spec fn opened(
    provider_key: Identity,
    provider: ContentProvider,
    subscriber: Identity,
    subscription_start: i64,
    current_time: i64,
) -> Subscription {
    Subscription {
        subscriber,
        provider: provider_key,
        start_time: subscription_start,
        end_time: (subscription_start + provider.subscription_duration) as i64,
        last_payment: current_time,
        auto_renewal: true,
    }
}

/// Why no payment can be asked for the opening of a subscription that is to
/// start at `subscription_start`, if none can: the start lies before
/// `current_time`, or the subscriber has a record with the provider already,
/// in this order.
pub open spec fn subscribe_refusal(
    ctx: Subscribe,
    subscription_start: i64,
    current_time: i64,
) -> Option<SubscriptionError> {
    if subscription_start < current_time {
        Some(SubscriptionError::InvalidStartTime)
    } else if ctx.subscription is Some {
        Some(SubscriptionError::DuplicateSubscription)
    } else {
        None
    }
}

/// Whether a subscription that is to start at `subscription_start` is opened
/// at `current_time`, given what the gateway answered.
pub open spec fn subscribe_outcome(
    ctx: Subscribe,
    subscription_start: i64,
    current_time: i64,
    payment: PaymentOutcome,
) -> Result<(), SubscriptionError> {
    match subscribe_refusal(ctx, subscription_start, current_time) {
        Some(e) => Err(e),
        None => if payment != PaymentOutcome::Success {
            Err(SubscriptionError::PaymentFailed)
        } else {
            Ok(())
        },
    }
}

/// The records after a subscription was opened.
pub open spec fn subscribed(ctx: Subscribe, subscription_start: i64, current_time: i64) -> Subscribe {
    Subscribe {
        content_provider_key: ctx.content_provider_key,
        content_provider: ContentProvider {
            total_subscribers: (ctx.content_provider.total_subscribers + 1) as u64,
            ..ctx.content_provider
        },
        subscription: Some(
            opened(
                ctx.content_provider_key,
                ctx.content_provider,
                ctx.subscriber,
                subscription_start,
                current_time,
            ),
        ),
        subscriber: ctx.subscriber,
    }
}

/// The first reason, if any, for which no payment can be asked for.
fn check_subscribe(ctx: &Subscribe, subscription_start: i64, current_time: i64) -> (r: Option<
    SubscriptionError,
>)
    ensures
        r == subscribe_refusal(*ctx, subscription_start, current_time),
{
    if subscription_start < current_time {
        Some(SubscriptionError::InvalidStartTime)
    } else if ctx.subscription.is_some() {
        Some(SubscriptionError::DuplicateSubscription)
    } else {
        None
    }
}

/// Says what has to be paid before a subscription can be opened, or why none
/// can be: a start that lies before `current_time` is refused with
/// `InvalidStartTime`, a second subscription of the subscriber with the
/// provider with `DuplicateSubscription`. A start in the future is accepted.
pub fn subscription_payment(ctx: &Subscribe, subscription_start: i64, current_time: i64) -> (r:
    Result<PaymentRequest, SubscriptionError>)
    ensures
        match subscribe_refusal(*ctx, subscription_start, current_time) {
            Some(e) => r == Err::<PaymentRequest, SubscriptionError>(e),
            None => r == Ok::<PaymentRequest, SubscriptionError>(
                payment_due(ctx.content_provider, ctx.subscriber),
            ),
        },
{
    match check_subscribe(ctx, subscription_start, current_time) {
        Some(e) => Err(e),
        None => Ok(
            PaymentRequest {
                from: ctx.subscriber,
                to: ctx.content_provider.authority,
                amount: ctx.content_provider.subscription_price,
            },
        ),
    }
}

/// Opens a subscription, given the gateway's answer to the payment that
/// `subscription_payment` named.
///
/// A start before `current_time` is refused with `InvalidStartTime`, a
/// second subscription of the subscriber with the provider with
/// `DuplicateSubscription`, a failed payment with `PaymentFailed`; a refusal
/// changes nothing. Otherwise the record is created: it belongs to the
/// subscriber and the provider, its window starts at the requested start and
/// lasts the provider's duration, it was paid at `current_time`, and
/// auto-renewal is on. The provider's subscriber count goes up by one.
pub fn subscribe(
    ctx: &mut Subscribe,
    subscription_start: i64,
    current_time: i64,
    payment: PaymentOutcome,
) -> (r: Result<(), SubscriptionError>)
    requires
        subscribe_outcome(*old(ctx), subscription_start, current_time, payment) is Ok
            ==> window_fits(subscription_start, old(ctx).content_provider.subscription_duration)
            && old(ctx).content_provider.total_subscribers < u64::MAX,
    ensures
        r == subscribe_outcome(*old(ctx), subscription_start, current_time, payment),
        r is Ok ==> *final(ctx) == subscribed(*old(ctx), subscription_start, current_time),
        r is Err ==> *final(ctx) == *old(ctx),
        payment == PaymentOutcome::Failure ==> r is Err && *final(ctx) == *old(ctx),
        r is Ok ==> (final(ctx).subscription matches Some(record) && record.start_time
            == subscription_start && record.end_time - record.start_time == old(
            ctx,
        ).content_provider.subscription_duration && record.window_ordered()),
{
    match check_subscribe(ctx, subscription_start, current_time) {
        Some(e) => {
            return Err(e);
        },
        None => {},
    }
    match payment {
        PaymentOutcome::Success => {},
        PaymentOutcome::Failure => {
            return Err(SubscriptionError::PaymentFailed);
        },
    }
    let end: i128 = subscription_start as i128 + ctx.content_provider.subscription_duration as i128;
    ctx.subscription = Some(
        Subscription {
            subscriber: ctx.subscriber,
            provider: ctx.content_provider_key,
            start_time: subscription_start,
            end_time: end as i64,
            last_payment: current_time,
            auto_renewal: true,
        },
    );
    ctx.content_provider.total_subscribers = ctx.content_provider.total_subscribers + 1;
    Ok(())
}

/// The records handed to `process_renewal`: the provider with the key of its
/// record, the subscriber, and the record that the subscriber has with the
/// provider, if there is one.
#[derive(Clone, Copy, Debug, PartialEq, Eq)]
pub struct ProcessRenewal {
    pub content_provider_key: Identity,
    pub content_provider: ContentProvider,
    pub subscription: Option<Subscription>,
    pub subscriber: Identity,
}

impl ProcessRenewal {
    /// The record to renew: the one handed over, where it is the one of this
    /// provider and subscriber.
    pub open spec fn record(&self) -> Option<Subscription> {
        match self.subscription {
            Some(subscription) => if subscription.belongs_to(
                self.content_provider_key,
                self.subscriber,
            ) {
                Some(subscription)
            } else {
                None
            },
            None => None,
        }
    }
}

/// The record after a renewal: the new window starts where the old one ended
/// and lasts `duration` seconds, whenever the renewal happens.
pub open spec fn renewed(subscription: Subscription, duration: u64, current_time: i64) -> Subscription {
    Subscription {
        start_time: subscription.end_time,
        end_time: (subscription.end_time + duration) as i64,
        last_payment: current_time,
        ..subscription
    }
}

/// Why a renewal cannot be asked for at `current_time`, if it cannot: there
/// is no record of this provider and subscriber, auto-renewal is off, or the
/// window has not elapsed, in this order.
pub open spec fn renewal_refusal(ctx: ProcessRenewal, current_time: i64) -> Option<
    SubscriptionError,
> {
    match ctx.record() {
        None => Some(SubscriptionError::NotFound),
        Some(subscription) => if !subscription.auto_renewal {
            Some(SubscriptionError::AutoRenewalDisabled)
        } else if current_time < subscription.end_time {
            Some(SubscriptionError::SubscriptionStillActive)
        } else {
            None
        },
    }
}

/// Whether a subscription is renewed at `current_time`, given what the gateway
/// answered.
pub open spec fn renewal_outcome(
    ctx: ProcessRenewal,
    current_time: i64,
    payment: PaymentOutcome,
) -> Result<(), SubscriptionError> {
    match renewal_refusal(ctx, current_time) {
        Some(e) => Err(e),
        None => if payment != PaymentOutcome::Success {
            Err(SubscriptionError::PaymentFailed)
        } else {
            Ok(())
        },
    }
}

/// The record to renew, or the first reason for which the renewal cannot be
/// asked for.
fn check_renewal(ctx: &ProcessRenewal, current_time: i64) -> (r: Result<
    Subscription,
    SubscriptionError,
>)
    ensures
        match renewal_refusal(*ctx, current_time) {
            Some(e) => r == Err::<Subscription, SubscriptionError>(e),
            None => ctx.record() matches Some(subscription) && r == Ok::<
                Subscription,
                SubscriptionError,
            >(subscription),
        },
{
    let subscription = match ctx.subscription {
        Some(subscription) => subscription,
        None => {
            return Err(SubscriptionError::NotFound);
        },
    };
    if !(subscription.provider == ctx.content_provider_key && subscription.subscriber
        == ctx.subscriber) {
        Err(SubscriptionError::NotFound)
    } else if !subscription.auto_renewal {
        Err(SubscriptionError::AutoRenewalDisabled)
    } else if current_time < subscription.end_time {
        Err(SubscriptionError::SubscriptionStillActive)
    } else {
        Ok(subscription)
    }
}

/// Says what has to be paid before a subscription can be renewed, or why it
/// cannot be: `NotFound` where there is no record of this provider and
/// subscriber, `AutoRenewalDisabled` where the flag is off,
/// `SubscriptionStillActive` before the window has ended.
pub fn renewal_payment(ctx: &ProcessRenewal, current_time: i64) -> (r: Result<
    PaymentRequest,
    SubscriptionError,
>)
    ensures
        match renewal_refusal(*ctx, current_time) {
            Some(e) => r == Err::<PaymentRequest, SubscriptionError>(e),
            None => r == Ok::<PaymentRequest, SubscriptionError>(
                payment_due(ctx.content_provider, ctx.subscriber),
            ),
        },
{
    match check_renewal(ctx, current_time) {
        Err(e) => Err(e),
        Ok(_) => Ok(
            PaymentRequest {
                from: ctx.subscriber,
                to: ctx.content_provider.authority,
                amount: ctx.content_provider.subscription_price,
            },
        ),
    }
}

/// Renews a subscription, given the gateway's answer to the payment that
/// `renewal_payment` named.
///
/// Refused with `NotFound` where there is no record of this provider and
/// subscriber, with `AutoRenewalDisabled` where the flag is off, with
/// `SubscriptionStillActive` before the window has ended, and with
/// `PaymentFailed` where the payment failed; a refusal changes nothing.
/// Otherwise the window moves on: it starts where the old one ended, however
/// long ago that was, and lasts the provider's duration; `last_payment`
/// becomes `current_time`.
pub fn process_renewal(ctx: &mut ProcessRenewal, current_time: i64, payment: PaymentOutcome) -> (r:
    Result<(), SubscriptionError>)
    requires
        renewal_outcome(*old(ctx), current_time, payment) is Ok ==> (old(ctx).record() matches Some(
            before,
        ) && window_fits(before.end_time, old(ctx).content_provider.subscription_duration)),
    ensures
        r == renewal_outcome(*old(ctx), current_time, payment),
        r is Ok ==> (old(ctx).record() matches Some(before) && final(ctx).subscription == Some(
            renewed(before, old(ctx).content_provider.subscription_duration, current_time),
        )),
        r is Err ==> final(ctx).subscription == old(ctx).subscription,
        final(ctx).content_provider_key == old(ctx).content_provider_key,
        final(ctx).content_provider == old(ctx).content_provider,
        final(ctx).subscriber == old(ctx).subscriber,
        old(ctx).record() matches Some(before) ==> (current_time < before.end_time ==> r is Err),
        old(ctx).record() matches Some(before) ==> (before.auto_renewal && current_time
            < before.end_time ==> r == Err::<(), SubscriptionError>(
            SubscriptionError::SubscriptionStillActive,
        )),
        payment == PaymentOutcome::Failure ==> r is Err,
        r is Ok ==> (old(ctx).record() matches Some(before) && final(ctx).subscription matches Some(
            after,
        ) && after.start_time == before.end_time && after.end_time == before.end_time + old(
            ctx,
        ).content_provider.subscription_duration && after.window_ordered()),
{
    let before = match check_renewal(ctx, current_time) {
        Err(e) => {
            return Err(e);
        },
        Ok(subscription) => subscription,
    };
    match payment {
        PaymentOutcome::Success => {},
        PaymentOutcome::Failure => {
            return Err(SubscriptionError::PaymentFailed);
        },
    }
    let end: i128 = before.end_time as i128 + ctx.content_provider.subscription_duration as i128;
    ctx.subscription = Some(
        Subscription {
            subscriber: before.subscriber,
            provider: before.provider,
            start_time: before.end_time,
            end_time: end as i64,
            last_payment: current_time,
            auto_renewal: before.auto_renewal,
        },
    );
    Ok(())
}

/// The records handed to `toggle_auto_renewal`: the subscription and the
/// identity that asks.
#[derive(Clone, Copy, Debug, PartialEq, Eq)]
pub struct ToggleAutoRenewal {
    pub subscription: Subscription,
    pub subscriber: Identity,
}

/// The record with its auto-renewal flag flipped and nothing else changed.
pub open spec fn toggled(subscription: Subscription) -> Subscription {
    Subscription { auto_renewal: !subscription.auto_renewal, ..subscription }
}

/// Flips the auto-renewal flag of a subscription for its subscriber. Anyone
/// else is refused with `Unauthorized`, and nothing changes. Times and
/// payments are not touched.
pub fn toggle_auto_renewal(ctx: &mut ToggleAutoRenewal) -> (r: Result<(), SubscriptionError>)
    ensures
        old(ctx).subscription.subscriber == old(ctx).subscriber ==> r == Ok::<
            (),
            SubscriptionError,
        >(()),
        old(ctx).subscription.subscriber != old(ctx).subscriber ==> r == Err::<
            (),
            SubscriptionError,
        >(SubscriptionError::Unauthorized),
        r is Ok ==> final(ctx).subscription == toggled(old(ctx).subscription),
        r is Err ==> final(ctx).subscription == old(ctx).subscription,
        final(ctx).subscriber == old(ctx).subscriber,
{
    if !(ctx.subscription.subscriber == ctx.subscriber) {
        return Err(SubscriptionError::Unauthorized);
    }
    ctx.subscription.auto_renewal = !ctx.subscription.auto_renewal;
    Ok(())
}

} // verus!
