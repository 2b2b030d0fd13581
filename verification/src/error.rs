//! The reasons for which an operation is refused.

use vstd::prelude::*;

verus! {

/// Why an operation was refused. Every refusal leaves all state as it was.
#[derive(Clone, Copy, Debug, PartialEq, Eq, Structural)]
pub enum SubscriptionError {
    /// The requested start of a subscription precedes the current time.
    InvalidStartTime,
    /// A record already exists for the (provider, subscriber) pair.
    DuplicateSubscription,
    /// The payment gateway declined or failed.
    PaymentFailed,
    /// Renewal was attempted while the auto-renewal flag is off.
    AutoRenewalDisabled,
    /// Renewal was attempted before the current window has elapsed.
    SubscriptionStillActive,
    /// The caller is not the identity that the targeted record requires.
    Unauthorized,
    /// Access was requested outside the subscription window.
    InactiveSubscription,
    /// No record exists for the (provider, subscriber) pair.
    NotFound,
    /// A provider was configured with a duration that no window can hold.
    InvalidConfiguration,
}

} // verus!
