use subscription_service::{
    access_content, add_content, content_fits, initialize_content_provider, process_renewal, renewal_payment,
    subscribe, subscription_payment, toggle_auto_renewal, window_end, AccessContext, AddContent,
    Content, ContentProvider, ContentType, Identity, InitializeContentProvider, PaymentOutcome,
    PaymentRequest, ProcessRenewal, Subscribe, Subscription, SubscriptionError,
    SubscriptionState, ToggleAutoRenewal,
};

const THIRTY_DAYS: u64 = 2_592_000;

fn id(tag: u8) -> Identity {
    Identity { bytes: [tag; 32] }
}

fn provider(authority: Identity) -> ContentProvider {
    ContentProvider {
        authority,
        subscription_price: 100,
        subscription_duration: THIRTY_DAYS,
        total_subscribers: 0,
    }
}

fn blank_content() -> Content {
    Content {
        provider: id(0),
        content_id: String::new(),
        content_hash: String::new(),
        content_type: ContentType::Other,
        timestamp: 0,
    }
}

fn running(start: i64, end: i64, auto_renewal: bool) -> Subscription {
    Subscription {
        subscriber: id(3),
        provider: id(1),
        start_time: start,
        end_time: end,
        last_payment: start,
        auto_renewal,
    }
}

fn renewal_of(subscription: Subscription) -> ProcessRenewal {
    ProcessRenewal {
        content_provider_key: id(1),
        content_provider: provider(id(2)),
        subscription: Some(subscription),
        subscriber: id(3),
    }
}

fn opening() -> Subscribe {
    Subscribe {
        content_provider_key: id(1),
        content_provider: provider(id(2)),
        subscription: None,
        subscriber: id(3),
    }
}

#[test]
fn identities_compare_byte_for_byte() {
    let mut bytes = [7u8; 32];
    assert_eq!(id(7), Identity { bytes });
    bytes[31] = 8;
    assert_ne!(id(7), Identity { bytes });
    bytes[31] = 7;
    bytes[0] = 0;
    assert_ne!(id(7), Identity { bytes });
}

#[test]
fn registration_fills_the_record() {
    let mut ctx = InitializeContentProvider { content_provider: provider(id(9)), authority: id(2) };
    ctx.content_provider.total_subscribers = 55;
    assert_eq!(initialize_content_provider(&mut ctx, 250, THIRTY_DAYS), Ok(()));
    assert_eq!(
        ctx.content_provider,
        ContentProvider {
            authority: id(2),
            subscription_price: 250,
            subscription_duration: THIRTY_DAYS,
            total_subscribers: 0,
        }
    );
    assert_eq!(ctx.authority, id(2));
}

#[test]
fn registration_accepts_the_extremes() {
    let mut ctx = InitializeContentProvider { content_provider: provider(id(9)), authority: id(2) };
    assert_eq!(initialize_content_provider(&mut ctx, 0, 0), Ok(()));
    assert_eq!(ctx.content_provider.subscription_price, 0);
    assert_eq!(ctx.content_provider.subscription_duration, 0);
    assert_eq!(initialize_content_provider(&mut ctx, u64::MAX, i64::MAX as u64), Ok(()));
    assert_eq!(ctx.content_provider.subscription_price, u64::MAX);
    assert_eq!(ctx.content_provider.subscription_duration, 9_223_372_036_854_775_807);
}

#[test]
fn registration_refuses_a_duration_no_timestamp_holds() {
    let before = InitializeContentProvider { content_provider: provider(id(9)), authority: id(2) };
    let mut ctx = before;
    assert_eq!(
        initialize_content_provider(&mut ctx, 100, 9_223_372_036_854_775_808),
        Err(SubscriptionError::InvalidConfiguration)
    );
    assert_eq!(ctx, before);
    assert_eq!(
        initialize_content_provider(&mut ctx, 100, u64::MAX),
        Err(SubscriptionError::InvalidConfiguration)
    );
    assert_eq!(ctx, before);
}

#[test]
fn window_end_adds_the_duration() {
    assert_eq!(window_end(1000, THIRTY_DAYS), Some(2_593_000));
    assert_eq!(window_end(-10, 4), Some(-6));
    assert_eq!(window_end(i64::MAX, 0), Some(i64::MAX));
    assert_eq!(window_end(i64::MAX - 5, 5), Some(i64::MAX));
    assert_eq!(window_end(i64::MIN, u64::MAX), Some(i64::MAX));
    assert_eq!(window_end(-1, 9_223_372_036_854_775_808), Some(i64::MAX));
}

#[test]
fn window_end_reports_what_does_not_fit() {
    assert_eq!(window_end(i64::MAX, 1), None);
    assert_eq!(window_end(i64::MAX - 5, 6), None);
    assert_eq!(window_end(0, 9_223_372_036_854_775_808), None);
    assert_eq!(window_end(i64::MIN + 1, u64::MAX), None);
}

#[test]
fn subscription_payment_names_price_and_parties() {
    let ctx = opening();
    assert_eq!(
        subscription_payment(&ctx, 1000, 1000),
        Ok(PaymentRequest { from: id(3), to: id(2), amount: 100 })
    );
    assert_eq!(
        subscription_payment(&ctx, 5000, 1000),
        Ok(PaymentRequest { from: id(3), to: id(2), amount: 100 })
    );
}

#[test]
fn subscription_payment_refuses_a_past_start() {
    let ctx = opening();
    assert_eq!(subscription_payment(&ctx, 999, 1000), Err(SubscriptionError::InvalidStartTime));
}

#[test]
fn subscribe_fills_the_record_and_counts() {
    let mut ctx = opening();
    assert_eq!(subscribe(&mut ctx, 1000, 1000, PaymentOutcome::Success), Ok(()));
    assert_eq!(
        ctx.subscription,
        Some(Subscription {
            subscriber: id(3),
            provider: id(1),
            start_time: 1000,
            end_time: 2_593_000,
            last_payment: 1000,
            auto_renewal: true,
        })
    );
    assert_eq!(ctx.content_provider.total_subscribers, 1);
    assert_eq!(ctx.content_provider.subscription_price, 100);
    assert_eq!(ctx.content_provider.subscription_duration, THIRTY_DAYS);
    assert_eq!(ctx.content_provider.authority, id(2));
    assert_eq!(ctx.content_provider_key, id(1));
    assert_eq!(ctx.subscriber, id(3));
}

#[test]
fn subscribe_keeps_a_start_in_the_future() {
    let mut ctx = opening();
    assert_eq!(subscribe(&mut ctx, 50_000, 1000, PaymentOutcome::Success), Ok(()));
    let record = ctx.subscription.expect("the record was created");
    assert_eq!(record.start_time, 50_000);
    assert_eq!(record.end_time, 2_642_000);
    assert_eq!(record.end_time - record.start_time, THIRTY_DAYS as i64);
    assert_eq!(record.last_payment, 1000);
}

#[test]
fn subscribe_one_second_early_is_refused() {
    let before = opening();
    let mut ctx = before;
    assert_eq!(
        subscribe(&mut ctx, 999, 1000, PaymentOutcome::Success),
        Err(SubscriptionError::InvalidStartTime)
    );
    assert_eq!(ctx, before);
    assert_eq!(ctx.subscription, None);
    assert_eq!(ctx.content_provider.total_subscribers, 0);
}

#[test]
fn subscribe_early_start_comes_before_failed_payment() {
    let mut ctx = opening();
    assert_eq!(
        subscribe(&mut ctx, 999, 1000, PaymentOutcome::Failure),
        Err(SubscriptionError::InvalidStartTime)
    );
}

#[test]
fn subscribe_twice_is_a_duplicate() {
    let mut ctx = opening();
    assert_eq!(subscribe(&mut ctx, 1000, 1000, PaymentOutcome::Success), Ok(()));
    let before = ctx;
    assert_eq!(
        subscription_payment(&ctx, 5000, 2000),
        Err(SubscriptionError::DuplicateSubscription)
    );
    assert_eq!(
        subscribe(&mut ctx, 5000, 2000, PaymentOutcome::Success),
        Err(SubscriptionError::DuplicateSubscription)
    );
    assert_eq!(ctx, before);
    assert_eq!(ctx.content_provider.total_subscribers, 1);
}

#[test]
fn subscribe_reports_a_past_start_then_a_duplicate_then_the_payment() {
    let mut ctx = opening();
    ctx.subscription = Some(running(1000, 2_593_000, true));
    assert_eq!(
        subscribe(&mut ctx, 999, 1000, PaymentOutcome::Failure),
        Err(SubscriptionError::InvalidStartTime)
    );
    assert_eq!(
        subscribe(&mut ctx, 1000, 1000, PaymentOutcome::Failure),
        Err(SubscriptionError::DuplicateSubscription)
    );
    ctx.subscription = None;
    assert_eq!(
        subscribe(&mut ctx, 1000, 1000, PaymentOutcome::Failure),
        Err(SubscriptionError::PaymentFailed)
    );
}

#[test]
fn subscribe_without_payment_changes_nothing() {
    let before = opening();
    let mut ctx = before;
    assert_eq!(
        subscribe(&mut ctx, 1000, 1000, PaymentOutcome::Failure),
        Err(SubscriptionError::PaymentFailed)
    );
    assert_eq!(ctx, before);
    assert_eq!(ctx.subscription, None);
    assert_eq!(ctx.content_provider.total_subscribers, 0);
}

#[test]
fn renewal_payment_names_price_and_parties() {
    let ctx = renewal_of(running(1000, 2_593_000, true));
    assert_eq!(
        renewal_payment(&ctx, 2_593_000),
        Ok(PaymentRequest { from: id(3), to: id(2), amount: 100 })
    );
}

#[test]
fn renewal_payment_gives_the_first_reason() {
    let mut ctx = renewal_of(running(1000, 2_593_000, false));
    assert_eq!(renewal_payment(&ctx, 2_000_000), Err(SubscriptionError::AutoRenewalDisabled));
    ctx.subscription = Some(running(1000, 2_593_000, true));
    assert_eq!(renewal_payment(&ctx, 2_000_000), Err(SubscriptionError::SubscriptionStillActive));
    ctx.subscriber = id(4);
    assert_eq!(renewal_payment(&ctx, 2_000_000), Err(SubscriptionError::NotFound));
    ctx.subscriber = id(3);
    ctx.subscription = None;
    assert_eq!(renewal_payment(&ctx, 2_000_000), Err(SubscriptionError::NotFound));
}

#[test]
fn renewal_chains_from_the_old_end() {
    let mut ctx = renewal_of(running(1000, 2_593_000, true));
    assert_eq!(process_renewal(&mut ctx, 2_600_000, PaymentOutcome::Success), Ok(()));
    assert_eq!(
        ctx.subscription,
        Some(Subscription {
            subscriber: id(3),
            provider: id(1),
            start_time: 2_593_000,
            end_time: 5_185_000,
            last_payment: 2_600_000,
            auto_renewal: true,
        })
    );
    assert_eq!(ctx.content_provider, provider(id(2)));
}

#[test]
fn renewal_at_the_very_end_is_accepted() {
    let mut ctx = renewal_of(running(1000, 2_593_000, true));
    assert_eq!(process_renewal(&mut ctx, 2_593_000, PaymentOutcome::Success), Ok(()));
    let record = ctx.subscription.expect("the record is kept");
    assert_eq!(record.start_time, 2_593_000);
    assert_eq!(record.end_time, 5_185_000);
}

#[test]
fn late_renewal_does_not_catch_up() {
    let mut ctx = renewal_of(running(1000, 2_593_000, true));
    assert_eq!(process_renewal(&mut ctx, 900_000_000, PaymentOutcome::Success), Ok(()));
    let record = ctx.subscription.expect("the record is kept");
    assert_eq!(record.start_time, 2_593_000);
    assert_eq!(record.end_time, 5_185_000);
    assert_eq!(record.last_payment, 900_000_000);
    assert!(record.end_time < 900_000_000);
}

#[test]
fn renewal_before_the_end_is_refused() {
    let before = renewal_of(running(1000, 2_593_000, true));
    let mut ctx = before;
    assert_eq!(
        process_renewal(&mut ctx, 2_000_000, PaymentOutcome::Success),
        Err(SubscriptionError::SubscriptionStillActive)
    );
    assert_eq!(ctx, before);
    assert_eq!(
        process_renewal(&mut ctx, 2_592_999, PaymentOutcome::Success),
        Err(SubscriptionError::SubscriptionStillActive)
    );
    assert_eq!(ctx, before);
}

#[test]
fn renewal_with_the_flag_off_is_refused() {
    let before = renewal_of(running(1000, 2_593_000, false));
    let mut ctx = before;
    assert_eq!(
        process_renewal(&mut ctx, 2_600_000, PaymentOutcome::Success),
        Err(SubscriptionError::AutoRenewalDisabled)
    );
    assert_eq!(ctx, before);
    assert_eq!(
        process_renewal(&mut ctx, 2_000_000, PaymentOutcome::Success),
        Err(SubscriptionError::AutoRenewalDisabled)
    );
}

#[test]
fn renewal_without_a_record_of_the_pair_is_not_found() {
    let before = renewal_of(running(1000, 2_593_000, true));
    let mut ctx = before;
    ctx.subscription = None;
    assert_eq!(
        process_renewal(&mut ctx, 2_600_000, PaymentOutcome::Success),
        Err(SubscriptionError::NotFound)
    );
    assert_eq!(ctx.subscription, None);
    let mut ctx = before;
    ctx.subscriber = id(4);
    assert_eq!(
        process_renewal(&mut ctx, 2_600_000, PaymentOutcome::Success),
        Err(SubscriptionError::NotFound)
    );
    assert_eq!(ctx.subscription, before.subscription);
    let mut ctx = before;
    ctx.content_provider_key = id(5);
    assert_eq!(
        process_renewal(&mut ctx, 2_600_000, PaymentOutcome::Success),
        Err(SubscriptionError::NotFound)
    );
    assert_eq!(ctx.subscription, before.subscription);
}

#[test]
fn renewal_without_payment_changes_nothing() {
    let before = renewal_of(running(1000, 2_593_000, true));
    let mut ctx = before;
    assert_eq!(
        process_renewal(&mut ctx, 2_600_000, PaymentOutcome::Failure),
        Err(SubscriptionError::PaymentFailed)
    );
    assert_eq!(ctx, before);
}

#[test]
fn toggle_flips_the_flag_only() {
    let before = running(1000, 2_593_000, true);
    let mut ctx = ToggleAutoRenewal { subscription: before, subscriber: id(3) };
    assert_eq!(toggle_auto_renewal(&mut ctx), Ok(()));
    assert_eq!(ctx.subscription, Subscription { auto_renewal: false, ..before });
    assert_eq!(ctx.subscriber, id(3));
}

#[test]
fn toggle_twice_restores_the_flag() {
    for flag in [true, false] {
        let before = running(1000, 2_593_000, flag);
        let mut ctx = ToggleAutoRenewal { subscription: before, subscriber: id(3) };
        assert_eq!(toggle_auto_renewal(&mut ctx), Ok(()));
        assert_eq!(ctx.subscription.auto_renewal, !flag);
        assert_eq!(toggle_auto_renewal(&mut ctx), Ok(()));
        assert_eq!(ctx.subscription, before);
    }
}

#[test]
fn toggle_by_another_identity_is_refused() {
    let before = running(1000, 2_593_000, true);
    let mut ctx = ToggleAutoRenewal { subscription: before, subscriber: id(4) };
    assert_eq!(toggle_auto_renewal(&mut ctx), Err(SubscriptionError::Unauthorized));
    assert_eq!(ctx.subscription, before);
}

#[test]
fn publishing_fills_and_stamps_the_record() {
    let mut ctx = AddContent {
        content_provider_key: id(1),
        content_provider: provider(id(2)),
        content: blank_content(),
        authority: id(2),
    };
    let result = add_content(
        &mut ctx,
        String::from("episode-1"),
        String::from("9f86d081884c7d65"),
        ContentType::Video,
        4242,
    );
    assert_eq!(result, Ok(()));
    assert_eq!(
        ctx.content,
        Content {
            provider: id(1),
            content_id: String::from("episode-1"),
            content_hash: String::from("9f86d081884c7d65"),
            content_type: ContentType::Video,
            timestamp: 4242,
        }
    );
    assert_eq!(ctx.content_provider, provider(id(2)));
    assert_eq!(ctx.authority, id(2));
}

#[test]
fn publishing_by_a_stranger_is_refused() {
    let before = AddContent {
        content_provider_key: id(1),
        content_provider: provider(id(2)),
        content: blank_content(),
        authority: id(6),
    };
    let mut ctx = before.clone();
    let result = add_content(
        &mut ctx,
        String::from("episode-1"),
        String::from("9f86d081884c7d65"),
        ContentType::Article,
        4242,
    );
    assert_eq!(result, Err(SubscriptionError::Unauthorized));
    assert_eq!(ctx, before);
    assert_eq!(ctx.content, blank_content());
}

fn access_to(subscription: Subscription, provider_key: Identity, caller: Identity) -> AccessContext {
    let mut content = blank_content();
    content.provider = provider_key;
    content.content_type = ContentType::Audio;
    AccessContext { content, subscription, subscriber: caller }
}

#[test]
fn access_is_granted_inside_the_window() {
    let ctx = access_to(running(1000, 2_593_000, true), id(1), id(3));
    assert_eq!(access_content(&ctx, 1001), Ok(()));
    assert_eq!(access_content(&ctx, 2_000_000), Ok(()));
    assert_eq!(access_content(&ctx, 2_592_999), Ok(()));
}

#[test]
fn access_is_granted_at_both_ends() {
    let ctx = access_to(running(1000, 2_593_000, true), id(1), id(3));
    assert_eq!(access_content(&ctx, 1000), Ok(()));
    assert_eq!(access_content(&ctx, 2_593_000), Ok(()));
    let instant = access_to(running(77, 77, false), id(1), id(3));
    assert_eq!(access_content(&instant, 77), Ok(()));
}

#[test]
fn access_is_denied_outside_the_window() {
    let ctx = access_to(running(1000, 2_593_000, true), id(1), id(3));
    assert_eq!(access_content(&ctx, 999), Err(SubscriptionError::InactiveSubscription));
    assert_eq!(access_content(&ctx, 2_593_001), Err(SubscriptionError::InactiveSubscription));
    assert_eq!(access_content(&ctx, i64::MIN), Err(SubscriptionError::InactiveSubscription));
    assert_eq!(access_content(&ctx, i64::MAX), Err(SubscriptionError::InactiveSubscription));
}

#[test]
fn access_with_a_foreign_subscription_is_refused() {
    let stranger = access_to(running(1000, 2_593_000, true), id(1), id(4));
    assert_eq!(access_content(&stranger, 2_000_000), Err(SubscriptionError::Unauthorized));
    let other_provider = access_to(running(1000, 2_593_000, true), id(5), id(3));
    assert_eq!(access_content(&other_provider, 2_000_000), Err(SubscriptionError::Unauthorized));
    assert_eq!(access_content(&other_provider, 0), Err(SubscriptionError::Unauthorized));
}

#[test]
fn access_does_not_depend_on_the_flag() {
    let ctx = access_to(running(1000, 2_593_000, false), id(1), id(3));
    assert_eq!(access_content(&ctx, 2_000_000), Ok(()));
    assert!(ctx.subscription.is_active(2_000_000));
    assert!(!ctx.subscription.is_active(999));
}

#[test]
fn state_follows_the_window() {
    let subscription = running(1000, 2_593_000, true);
    assert_eq!(subscription.state(i64::MIN), SubscriptionState::FutureScheduled);
    assert_eq!(subscription.state(999), SubscriptionState::FutureScheduled);
    assert_eq!(subscription.state(1000), SubscriptionState::Active);
    assert_eq!(subscription.state(2_000_000), SubscriptionState::Active);
    assert_eq!(subscription.state(2_593_000), SubscriptionState::Active);
    assert_eq!(subscription.state(2_593_001), SubscriptionState::Expired);
    assert_eq!(subscription.state(i64::MAX), SubscriptionState::Expired);
}

#[test]
fn a_subscription_opened_for_later_is_scheduled_until_it_starts() {
    let mut ctx = opening();
    assert_eq!(subscribe(&mut ctx, 50_000, 1000, PaymentOutcome::Success), Ok(()));
    let record = ctx.subscription.expect("the record was created");
    assert_eq!(record.state(1000), SubscriptionState::FutureScheduled);
    assert_eq!(record.state(50_000), SubscriptionState::Active);
    let access = access_to(record, id(1), id(3));
    assert_eq!(access_content(&access, 1000), Err(SubscriptionError::InactiveSubscription));
    assert_eq!(access_content(&access, 50_000), Ok(()));
}

#[test]
fn a_window_of_no_length_renews_in_place() {
    let mut ctx = renewal_of(running(500, 500, true));
    ctx.content_provider.subscription_duration = 0;
    assert_eq!(process_renewal(&mut ctx, 500, PaymentOutcome::Success), Ok(()));
    let record = ctx.subscription.expect("the record is kept");
    assert_eq!((record.start_time, record.end_time), (500, 500));
}

#[test]
fn renewal_reaches_the_last_timestamp() {
    let mut ctx = renewal_of(running(0, i64::MAX - 10, true));
    ctx.content_provider.subscription_duration = 10;
    assert_eq!(process_renewal(&mut ctx, i64::MAX, PaymentOutcome::Success), Ok(()));
    let record = ctx.subscription.expect("the record is kept");
    assert_eq!((record.start_time, record.end_time), (i64::MAX - 10, i64::MAX));
    assert_eq!(record.last_payment, i64::MAX);
}

#[test]
fn subscribe_counts_up_to_the_last_number() {
    let mut ctx = opening();
    ctx.content_provider.total_subscribers = u64::MAX - 1;
    assert_eq!(subscribe(&mut ctx, -50, -100, PaymentOutcome::Success), Ok(()));
    assert_eq!(ctx.content_provider.total_subscribers, u64::MAX);
    let record = ctx.subscription.expect("the record was created");
    assert_eq!((record.start_time, record.end_time), (-50, 2_591_950));
    assert_eq!(record.last_payment, -100);
}

#[test]
fn id_and_digest_have_sixty_four_characters_each() {
    let full = "a".repeat(64);
    let over = "a".repeat(65);
    assert!(content_fits("", ""));
    assert!(content_fits("episode-1", "9f86d081884c7d65"));
    assert!(content_fits(&full, &full));
    assert!(!content_fits(&over, &full));
    assert!(!content_fits(&full, &over));
    assert!(!content_fits(&over, &over));
}

#[test]
fn bounds_count_characters() {
    let accented = "\u{e9}".repeat(64);
    assert_eq!(accented.len(), 128);
    assert!(content_fits(&accented, &accented));
    let one_more = "\u{e9}".repeat(65);
    assert!(!content_fits(&one_more, ""));
    assert!(!content_fits("", &one_more));
}

#[test]
fn a_full_length_digest_is_published() {
    let digest = "9f86d081884c7d659a2feaa0c55ad015a3bf4f1b2b0b822cd15d6c15b0f00a08";
    assert_eq!(digest.len(), 64);
    assert!(content_fits("episode-2", digest));
    let mut ctx = AddContent {
        content_provider_key: id(1),
        content_provider: provider(id(2)),
        content: blank_content(),
        authority: id(2),
    };
    let result = add_content(
        &mut ctx,
        String::from("episode-2"),
        String::from(digest),
        ContentType::Audio,
        -7,
    );
    assert_eq!(result, Ok(()));
    assert_eq!(ctx.content.content_hash, digest);
    assert_eq!(ctx.content.content_id, "episode-2");
    assert_eq!(ctx.content.content_type, ContentType::Audio);
    assert_eq!(ctx.content.timestamp, -7);
    assert_eq!(ctx.content.provider, id(1));
}
