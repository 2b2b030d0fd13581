//! The ledger of subscriptions: one record for each pair of a provider and a
//! subscriber.

use vstd::prelude::*;
use crate::error::SubscriptionError;
use crate::identity::Identity;
use crate::payment::{PaymentOutcome, PaymentRequest};
use crate::provider::ContentProvider;
use crate::subscription::{
    opened, payment_due, process_renewal, renewal_outcome, renewal_payment, renewed, subscribe,
    subscribe_outcome, subscription_payment, toggle_auto_renewal, toggled, window_fits,
    ProcessRenewal, Subscribe, Subscription, ToggleAutoRenewal,
};

verus! {

/// Some record in `records` is the one of this provider and subscriber.
pub open spec fn has_record(records: Seq<Subscription>, provider: Identity, subscriber: Identity) -> bool {
    exists|i: int|
        0 <= i < records.len() && (#[trigger] records[i]).belongs_to(provider, subscriber)
}

/// The place of the record of this provider and subscriber, where there is
/// one.
pub open spec fn place_of(records: Seq<Subscription>, provider: Identity, subscriber: Identity) -> int {
    choose|i: int|
        0 <= i < records.len() && (#[trigger] records[i]).belongs_to(provider, subscriber)
}

/// The record of this provider and subscriber, if there is one.
pub open spec fn lookup(records: Seq<Subscription>, provider: Identity, subscriber: Identity) -> Option<
    Subscription,
> {
    if has_record(records, provider, subscriber) {
        Some(records[place_of(records, provider, subscriber)])
    } else {
        None
    }
}

/// No two records are of the same provider and the same subscriber.
pub open spec fn one_record_per_pair(records: Seq<Subscription>) -> bool {
    forall|i: int, j: int|
        0 <= i < j < records.len() ==> !(#[trigger] records[j]).belongs_to(
            (#[trigger] records[i]).provider,
            records[i].subscriber,
        )
}

/// No record has a window that ends before it starts.
pub open spec fn windows_ordered(records: Seq<Subscription>) -> bool {
    forall|i: int| 0 <= i < records.len() ==> (#[trigger] records[i]).window_ordered()
}

/// What holds of the records of a ledger at all times.
pub open spec fn well_formed(records: Seq<Subscription>) -> bool {
    one_record_per_pair(records) && windows_ordered(records)
}

/// In well-formed records the record of a pair stands in one place only.
pub proof fn lemma_place_is_unique(
    records: Seq<Subscription>,
    provider: Identity,
    subscriber: Identity,
    i: int,
)
    requires
        one_record_per_pair(records),
        0 <= i < records.len(),
        records[i].belongs_to(provider, subscriber),
    ensures
        has_record(records, provider, subscriber),
        place_of(records, provider, subscriber) == i,
        lookup(records, provider, subscriber) == Some(records[i]),
{
    let k = place_of(records, provider, subscriber);
    assert(0 <= k < records.len() && records[k].belongs_to(provider, subscriber));
    if k < i {
        assert(!records[i].belongs_to(records[k].provider, records[k].subscriber));
    } else if i < k {
        assert(!records[k].belongs_to(records[i].provider, records[i].subscriber));
    }
}

/// A record added for a pair that had none becomes the record of that pair,
/// and every other pair keeps what it had.
pub proof fn lemma_lookup_after_push(
    records: Seq<Subscription>,
    record: Subscription,
    provider: Identity,
    subscriber: Identity,
)
    requires
        one_record_per_pair(records),
        !has_record(records, record.provider, record.subscriber),
    ensures
        one_record_per_pair(records.push(record)),
        lookup(records.push(record), provider, subscriber) == if record.belongs_to(
            provider,
            subscriber,
        ) {
            Some(record)
        } else {
            lookup(records, provider, subscriber)
        },
{
    let after = records.push(record);
    let n = records.len() as int;
    assert forall|i: int, j: int| 0 <= i < j < after.len() implies !(#[trigger] after[j]).belongs_to(
        (#[trigger] after[i]).provider,
        after[i].subscriber,
    ) by {
        if j == n {
            assert(after[i] == records[i]);
            if after[j].belongs_to(after[i].provider, after[i].subscriber) {
                assert(records[i].belongs_to(record.provider, record.subscriber));
            }
        } else {
            assert(after[i] == records[i] && after[j] == records[j]);
        }
    }
    if record.belongs_to(provider, subscriber) {
        assert(after[n] == record);
        lemma_place_is_unique(after, provider, subscriber, n);
    } else if has_record(records, provider, subscriber) {
        let k = place_of(records, provider, subscriber);
        assert(after[k] == records[k]);
        lemma_place_is_unique(after, provider, subscriber, k);
    } else {
        if has_record(after, provider, subscriber) {
            let k = place_of(after, provider, subscriber);
            assert(after[k].belongs_to(provider, subscriber));
            assert(k < n);
            assert(records[k] == after[k]);
        }
    }
}

/// A record put in the place of another of the same pair becomes the record
/// of that pair, and every other pair keeps what it had.
pub proof fn lemma_lookup_after_update(
    records: Seq<Subscription>,
    i: int,
    record: Subscription,
    provider: Identity,
    subscriber: Identity,
)
    requires
        one_record_per_pair(records),
        0 <= i < records.len(),
        record.belongs_to(records[i].provider, records[i].subscriber),
    ensures
        one_record_per_pair(records.update(i, record)),
        lookup(records.update(i, record), provider, subscriber) == if record.belongs_to(
            provider,
            subscriber,
        ) {
            Some(record)
        } else {
            lookup(records, provider, subscriber)
        },
{
    let after = records.update(i, record);
    assert forall|a: int, b: int| 0 <= a < b < after.len() implies !(#[trigger] after[b]).belongs_to(
        (#[trigger] after[a]).provider,
        after[a].subscriber,
    ) by {
        assert(after[a].provider == records[a].provider && after[a].subscriber
            == records[a].subscriber);
        assert(after[b].provider == records[b].provider && after[b].subscriber
            == records[b].subscriber);
        assert(!records[b].belongs_to(records[a].provider, records[a].subscriber));
    }
    if record.belongs_to(provider, subscriber) {
        assert(after[i] == record);
        lemma_place_is_unique(after, provider, subscriber, i);
    } else if has_record(records, provider, subscriber) {
        let k = place_of(records, provider, subscriber);
        assert(k != i);
        assert(after[k] == records[k]);
        lemma_place_is_unique(after, provider, subscriber, k);
    } else {
        if has_record(after, provider, subscriber) {
            let k = place_of(after, provider, subscriber);
            assert(after[k].belongs_to(provider, subscriber));
            assert(k != i);
            assert(records[k] == after[k]);
        }
    }
}

/// What `subscribe` is handed where the ledger opens a subscription: the
/// record that the ledger holds for the pair, if any.
pub open spec fn opening_of(
    records: Seq<Subscription>,
    provider_key: Identity,
    provider: ContentProvider,
    subscriber: Identity,
) -> Subscribe {
    Subscribe {
        content_provider_key: provider_key,
        content_provider: provider,
        subscription: lookup(records, provider_key, subscriber),
        subscriber,
    }
}

/// What `process_renewal` is handed where the ledger renews a subscription:
/// the record that the ledger holds for the pair, if any.
pub open spec fn renewal_of(
    records: Seq<Subscription>,
    provider_key: Identity,
    provider: ContentProvider,
    subscriber: Identity,
) -> ProcessRenewal {
    ProcessRenewal {
        content_provider_key: provider_key,
        content_provider: provider,
        subscription: lookup(records, provider_key, subscriber),
        subscriber,
    }
}

/// What opening a subscription of this subscriber with this provider gives,
/// given what the gateway answered: the start must not lie before
/// `current_time`, the pair must have no record yet, and the payment must
/// have succeeded, in this order; then the new record.
pub open spec fn open_result(
    records: Seq<Subscription>,
    provider_key: Identity,
    provider: ContentProvider,
    subscriber: Identity,
    subscription_start: i64,
    current_time: i64,
    payment: PaymentOutcome,
) -> Result<Subscription, SubscriptionError> {
    match subscribe_outcome(
        opening_of(records, provider_key, provider, subscriber),
        subscription_start,
        current_time,
        payment,
    ) {
        Err(e) => Err(e),
        Ok(_) => Ok(opened(provider_key, provider, subscriber, subscription_start, current_time)),
    }
}

/// What renewing the subscription of this subscriber with this provider
/// gives, given what the gateway answered: there must be a record,
/// auto-renewal must be on, the window must have ended, and the payment must
/// have succeeded, in this order; then the renewed record.
pub open spec fn renew_result(
    records: Seq<Subscription>,
    provider_key: Identity,
    provider: ContentProvider,
    subscriber: Identity,
    current_time: i64,
    payment: PaymentOutcome,
) -> Result<Subscription, SubscriptionError> {
    match renewal_outcome(
        renewal_of(records, provider_key, provider, subscriber),
        current_time,
        payment,
    ) {
        Err(e) => Err(e),
        Ok(_) => Ok(
            renewed(
                lookup(records, provider_key, subscriber).unwrap(),
                provider.subscription_duration,
                current_time,
            ),
        ),
    }
}

/// What flipping the auto-renewal flag of the subscription of this subscriber
/// with this provider gives for `caller`: there must be a record, and the
/// caller must be its subscriber; then the record with the flag flipped.
pub open spec fn toggle_result(
    records: Seq<Subscription>,
    provider_key: Identity,
    subscriber: Identity,
    caller: Identity,
) -> Result<Subscription, SubscriptionError> {
    match lookup(records, provider_key, subscriber) {
        None => Err(SubscriptionError::NotFound),
        Some(record) => if caller != subscriber {
            Err(SubscriptionError::Unauthorized)
        } else {
            Ok(toggled(record))
        },
    }
}

/// What a payment question answers: the payment that is due where the
/// operation would go through on a successful payment, and its refusal where
/// it would not.
pub open spec fn payment_or_refusal(
    dry_run: Result<Subscription, SubscriptionError>,
    provider: ContentProvider,
    subscriber: Identity,
) -> Result<PaymentRequest, SubscriptionError> {
    match dry_run {
        Ok(_) => Ok(payment_due(provider, subscriber)),
        Err(e) => Err(e),
    }
}

/// The subscription ledger: the records of all subscriptions, at most one for
/// each pair of a provider and a subscriber, in the order in which they were
/// opened. Records are never removed.
pub struct SubscriptionLedger {
    records: Vec<Subscription>,
}

impl View for SubscriptionLedger {
    type V = Seq<Subscription>;

    closed spec fn view(&self) -> Seq<Subscription> {
        self.records@
    }
}

impl SubscriptionLedger {
    #[verifier::type_invariant]
    spec fn inv(&self) -> bool {
        well_formed(self.records@)
    }

    /// A ledger without records.
    pub fn new() -> (ledger: SubscriptionLedger)
        ensures
            ledger@ == Seq::<Subscription>::empty(),
            well_formed(ledger@),
    {
        SubscriptionLedger { records: Vec::new() }
    }

    /// The number of records.
    pub fn len(&self) -> (n: usize)
        ensures
            n == self@.len(),
            well_formed(self@),
    {
        proof {
            use_type_invariant(self);
        }
        self.records.len()
    }

    /// The record of this provider and subscriber, if there is one.
    pub fn get(&self, provider: Identity, subscriber: Identity) -> (r: Option<Subscription>)
        ensures
            r == lookup(self@, provider, subscriber),
            well_formed(self@),
    {
        match self.position(provider, subscriber) {
            Some(i) => Some(self.records[i]),
            None => None,
        }
    }

    /// Says what has to be paid before a subscription of this subscriber with
    /// this provider can be opened, or why none can be: `InvalidStartTime`
    /// where the start lies before `current_time`, `DuplicateSubscription`
    /// where the pair has a record already.
    pub fn open_payment(
        &self,
        provider_key: Identity,
        provider: &ContentProvider,
        subscriber: Identity,
        subscription_start: i64,
        current_time: i64,
    ) -> (r: Result<PaymentRequest, SubscriptionError>)
        ensures
            r == payment_or_refusal(
                open_result(
                    self@,
                    provider_key,
                    *provider,
                    subscriber,
                    subscription_start,
                    current_time,
                    PaymentOutcome::Success,
                ),
                *provider,
                subscriber,
            ),
    {
        let ctx = Subscribe {
            content_provider_key: provider_key,
            content_provider: *provider,
            subscription: self.get(provider_key, subscriber),
            subscriber,
        };
        subscription_payment(&ctx, subscription_start, current_time)
    }

    /// Opens the subscription of this subscriber with this provider, given
    /// the gateway's answer to the payment that `open_payment` named.
    ///
    /// Refused with `InvalidStartTime` where the start lies before
    /// `current_time`, with `DuplicateSubscription` where the pair has a
    /// record already, and with `PaymentFailed` where the payment failed; a
    /// refusal adds no record and leaves the provider's subscriber count as
    /// it was. Otherwise the new record is added behind the others and
    /// returned, and the count goes up by one. The records of all other
    /// pairs stay as they were.
    pub fn open(
        &mut self,
        provider_key: Identity,
        provider: &mut ContentProvider,
        subscriber: Identity,
        subscription_start: i64,
        current_time: i64,
        payment: PaymentOutcome,
    ) -> (r: Result<Subscription, SubscriptionError>)
        requires
            open_result(
                old(self)@,
                provider_key,
                *old(provider),
                subscriber,
                subscription_start,
                current_time,
                payment,
            ) is Ok ==> window_fits(subscription_start, old(provider).subscription_duration)
                && old(provider).total_subscribers < u64::MAX,
        ensures
            r == open_result(
                old(self)@,
                provider_key,
                *old(provider),
                subscriber,
                subscription_start,
                current_time,
                payment,
            ),
            match r {
                Ok(record) => final(self)@ == old(self)@.push(record) && *final(provider) == (
                ContentProvider {
                    total_subscribers: (old(provider).total_subscribers + 1) as u64,
                    ..*old(provider)
                }),
                Err(_) => final(self)@ == old(self)@ && *final(provider) == *old(provider),
            },
            payment == PaymentOutcome::Failure ==> r is Err && final(self)@ == old(self)@
                && final(provider).total_subscribers == old(provider).total_subscribers,
            r matches Ok(record) ==> record.start_time == subscription_start && record.end_time
                - record.start_time == old(provider).subscription_duration,
            forall|p: Identity, s: Identity| #[trigger]
                lookup(final(self)@, p, s) == if r is Ok && p == provider_key && s == subscriber {
                    Some(r->Ok_0)
                } else {
                    lookup(old(self)@, p, s)
                },
            well_formed(final(self)@),
    {
        proof {
            use_type_invariant(&*self);
        }
        let mut ctx = Subscribe {
            content_provider_key: provider_key,
            content_provider: *provider,
            subscription: self.get(provider_key, subscriber),
            subscriber,
        };
        match subscribe(&mut ctx, subscription_start, current_time, payment) {
            Err(e) => Err(e),
            Ok(()) => {
                let record = ctx.subscription.unwrap();
                self.append(record);
                *provider = ctx.content_provider;
                Ok(record)
            },
        }
    }

    /// Says what has to be paid before the subscription of this subscriber
    /// with this provider can be renewed, or why it cannot be: `NotFound`
    /// where the pair has no record, `AutoRenewalDisabled` where the flag is
    /// off, `SubscriptionStillActive` before the window has ended.
    pub fn renew_payment(
        &self,
        provider_key: Identity,
        provider: &ContentProvider,
        subscriber: Identity,
        current_time: i64,
    ) -> (r: Result<PaymentRequest, SubscriptionError>)
        ensures
            r == payment_or_refusal(
                renew_result(
                    self@,
                    provider_key,
                    *provider,
                    subscriber,
                    current_time,
                    PaymentOutcome::Success,
                ),
                *provider,
                subscriber,
            ),
    {
        let ctx = ProcessRenewal {
            content_provider_key: provider_key,
            content_provider: *provider,
            subscription: self.get(provider_key, subscriber),
            subscriber,
        };
        renewal_payment(&ctx, current_time)
    }

    /// Renews the subscription of this subscriber with this provider, given
    /// the gateway's answer to the payment that `renew_payment` named.
    ///
    /// Refused with `NotFound` where the pair has no record, with
    /// `AutoRenewalDisabled` where the flag is off, with
    /// `SubscriptionStillActive` before the window has ended, and with
    /// `PaymentFailed` where the payment failed; a refusal changes nothing.
    /// Otherwise the record's window moves on, from the end of the old one
    /// for the provider's duration, and the renewed record is returned. The
    /// records of all other pairs stay as they were.
    pub fn renew(
        &mut self,
        provider_key: Identity,
        provider: &ContentProvider,
        subscriber: Identity,
        current_time: i64,
        payment: PaymentOutcome,
    ) -> (r: Result<Subscription, SubscriptionError>)
        requires
            renew_result(old(self)@, provider_key, *provider, subscriber, current_time, payment)
                is Ok ==> (lookup(old(self)@, provider_key, subscriber) matches Some(before)
                && window_fits(before.end_time, provider.subscription_duration)),
        ensures
            r == renew_result(
                old(self)@,
                provider_key,
                *provider,
                subscriber,
                current_time,
                payment,
            ),
            match r {
                Ok(record) => final(self)@ == old(self)@.update(
                    place_of(old(self)@, provider_key, subscriber),
                    record,
                ),
                Err(_) => final(self)@ == old(self)@,
            },
            lookup(old(self)@, provider_key, subscriber) matches Some(before) ==> (current_time
                < before.end_time ==> r is Err),
            lookup(old(self)@, provider_key, subscriber) matches Some(before) ==> (
            before.auto_renewal && current_time < before.end_time ==> r == Err::<
                Subscription,
                SubscriptionError,
            >(SubscriptionError::SubscriptionStillActive)),
            payment == PaymentOutcome::Failure ==> r is Err && final(self)@ == old(self)@,
            r matches Ok(record) ==> (lookup(old(self)@, provider_key, subscriber) matches Some(
                before,
            ) && record.start_time == before.end_time && record.end_time == before.end_time
                + provider.subscription_duration),
            forall|p: Identity, s: Identity| #[trigger]
                lookup(final(self)@, p, s) == if r is Ok && p == provider_key && s == subscriber {
                    Some(r->Ok_0)
                } else {
                    lookup(old(self)@, p, s)
                },
            well_formed(final(self)@),
    {
        proof {
            use_type_invariant(&*self);
        }
        let i: usize = match self.position(provider_key, subscriber) {
            None => {
                return Err(SubscriptionError::NotFound);
            },
            Some(i) => i,
        };
        let mut ctx = ProcessRenewal {
            content_provider_key: provider_key,
            content_provider: *provider,
            subscription: Some(self.records[i]),
            subscriber,
        };
        match process_renewal(&mut ctx, current_time, payment) {
            Err(e) => Err(e),
            Ok(()) => {
                let record = ctx.subscription.unwrap();
                self.replace(i, record);
                Ok(record)
            },
        }
    }

    /// Flips the auto-renewal flag of the subscription of this subscriber
    /// with this provider, for `caller`.
    ///
    /// Refused with `NotFound` where the pair has no record, and with
    /// `Unauthorized` where the caller is not the subscriber; a refusal
    /// changes nothing. Otherwise the flag is flipped, nothing else is, and
    /// the record is returned. The records of all other pairs stay as they
    /// were.
    pub fn toggle_auto_renewal(
        &mut self,
        provider_key: Identity,
        subscriber: Identity,
        caller: Identity,
    ) -> (r: Result<Subscription, SubscriptionError>)
        ensures
            r == toggle_result(old(self)@, provider_key, subscriber, caller),
            match r {
                Ok(record) => final(self)@ == old(self)@.update(
                    place_of(old(self)@, provider_key, subscriber),
                    record,
                ),
                Err(_) => final(self)@ == old(self)@,
            },
            forall|p: Identity, s: Identity| #[trigger]
                lookup(final(self)@, p, s) == if r is Ok && p == provider_key && s == subscriber {
                    Some(r->Ok_0)
                } else {
                    lookup(old(self)@, p, s)
                },
            well_formed(final(self)@),
    {
        proof {
            use_type_invariant(&*self);
        }
        let i: usize = match self.position(provider_key, subscriber) {
            None => {
                return Err(SubscriptionError::NotFound);
            },
            Some(i) => i,
        };
        let mut ctx = ToggleAutoRenewal { subscription: self.records[i], subscriber: caller };
        match toggle_auto_renewal(&mut ctx) {
            Err(e) => Err(e),
            Ok(()) => {
                self.replace(i, ctx.subscription);
                Ok(ctx.subscription)
            },
        }
    }

    /// Where the record of this provider and subscriber stands, if there is
    /// one.
    fn position(&self, provider: Identity, subscriber: Identity) -> (r: Option<usize>)
        ensures
            well_formed(self@),
            match r {
                Some(i) => i < self@.len() && i == place_of(self@, provider, subscriber)
                    && lookup(self@, provider, subscriber) == Some(self@[i as int]),
                None => lookup(self@, provider, subscriber) is None,
            },
    {
        proof {
            use_type_invariant(self);
        }
        let mut i: usize = 0;
        while i < self.records.len()
            invariant
                i <= self.records.len(),
                well_formed(self.records@),
                forall|k: int|
                    0 <= k < i ==> !(#[trigger] self.records@[k]).belongs_to(provider, subscriber),
            decreases self.records.len() - i,
        {
            if self.records[i].provider == provider && self.records[i].subscriber == subscriber {
                proof {
                    lemma_place_is_unique(self.records@, provider, subscriber, i as int);
                }
                return Some(i);
            }
            i += 1;
        }
        None
    }

    /// Adds `record`, which is of a pair without a record, behind the others.
    fn append(&mut self, record: Subscription)
        requires
            lookup(old(self)@, record.provider, record.subscriber) is None,
            record.window_ordered(),
        ensures
            final(self)@ == old(self)@.push(record),
            well_formed(final(self)@),
            forall|p: Identity, s: Identity| #[trigger]
                lookup(final(self)@, p, s) == if record.belongs_to(p, s) {
                    Some(record)
                } else {
                    lookup(old(self)@, p, s)
                },
    {
        proof {
            use_type_invariant(&*self);
        }
        let mut records = Vec::new();
        std::mem::swap(&mut records, &mut self.records);
        proof {
            assert forall|p: Identity, s: Identity| #[trigger]
                lookup(records@.push(record), p, s) == if record.belongs_to(p, s) {
                    Some(record)
                } else {
                    lookup(records@, p, s)
                } by {
                lemma_lookup_after_push(records@, record, p, s);
            }
            lemma_lookup_after_push(records@, record, record.provider, record.subscriber);
        }
        records.push(record);
        self.records = records;
    }

    /// Puts `record` in the place of the record at `i`, which is of the same
    /// pair.
    fn replace(&mut self, i: usize, record: Subscription)
        requires
            i < old(self)@.len(),
            record.belongs_to(old(self)@[i as int].provider, old(self)@[i as int].subscriber),
            record.window_ordered(),
        ensures
            final(self)@ == old(self)@.update(i as int, record),
            well_formed(final(self)@),
            forall|p: Identity, s: Identity| #[trigger]
                lookup(final(self)@, p, s) == if record.belongs_to(p, s) {
                    Some(record)
                } else {
                    lookup(old(self)@, p, s)
                },
    {
        proof {
            use_type_invariant(&*self);
        }
        let mut records = Vec::new();
        std::mem::swap(&mut records, &mut self.records);
        proof {
            assert forall|p: Identity, s: Identity| #[trigger]
                lookup(records@.update(i as int, record), p, s) == if record.belongs_to(p, s) {
                    Some(record)
                } else {
                    lookup(records@, p, s)
                } by {
                lemma_lookup_after_update(records@, i as int, record, p, s);
            }
            lemma_lookup_after_update(
                records@,
                i as int,
                record,
                record.provider,
                record.subscriber,
            );
        }
        records.set(i, record);
        self.records = records;
    }
}

} // verus!
