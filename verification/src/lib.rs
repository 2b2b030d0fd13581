//! Time-bounded access to content by paid subscription.
//!
//! A subscriber opens a subscription with a content provider, which grants
//! access during a window of time; once the window has elapsed the
//! subscription can be renewed, and the new window follows the old one
//! without a gap. Every opening and every renewal is paid for.
//!
//! The library decides and records; it neither reads a clock nor moves
//! money. Each operation is handed the current time, and the two that are
//! paid for come in two steps: a question that names the payment due
//! (`subscription_payment`, `renewal_payment`), and the operation itself,
//! which is handed the gateway's answer. A refused operation changes
//! nothing.
//!
//! `subscription` holds the life of one record, `ledger` the records of all
//! pairs of a provider and a subscriber, `provider` and `content` the
//! registration of providers and the publication of items, `access` the
//! access check, and `laws` what holds across operations.

pub mod access;
pub mod content;
pub mod error;
pub mod identity;
pub mod laws;
pub mod ledger;
pub mod payment;
pub mod provider;
pub mod subscription;

pub use access::{access_content, AccessContext};
pub use content::{add_content, content_fits, AddContent, Content, ContentType};
pub use error::SubscriptionError;
pub use identity::Identity;
pub use ledger::SubscriptionLedger;
pub use payment::{PaymentOutcome, PaymentRequest};
pub use provider::{initialize_content_provider, ContentProvider, InitializeContentProvider};
pub use subscription::{
    process_renewal, renewal_payment, subscribe, subscription_payment, toggle_auto_renewal,
    window_end, ProcessRenewal, Subscribe, Subscription, SubscriptionState, ToggleAutoRenewal,
};
