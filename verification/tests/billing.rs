use hmac::{Hmac, Mac};
use supahost::billing::checkout::{
    cancel_url, checkout_reply, finish_checkout, prepare_checkout, price_id_env_key,
    price_id_for_plan, success_url, CheckoutError, CheckoutReply, CheckoutRequest,
    CheckoutResponse, StripeSession,
};
use supahost::billing::hex::{encode, secure_eq};
use supahost::billing::signature::{
    header_fields, verify_stripe_signature, verify_stripe_signature_at, SignatureError,
};
use supahost::billing::webhook::{
    checkout_completed_event, start_webhook, subscription_deleted_event, BillingEvent,
    StripeEvent, StripeObject, WebhookAction, WebhookError, WebhookEvent, WebhookPhase,
    WebhookSettings,
};

fn hex_lower(bytes: &[u8]) -> String {
    bytes.iter().map(|b| format!("{:02x}", b)).collect()
}

fn stripe_sig(secret: &str, t: i64, payload: &[u8]) -> String {
    let mut mac = Hmac::<sha2::Sha256>::new_from_slice(secret.as_bytes()).unwrap();
    mac.update(format!("{}.", t).as_bytes());
    mac.update(payload);
    hex_lower(&mac.finalize().into_bytes())
}

#[test]
fn hex_encode_gives_two_lower_case_digits_per_byte() {
    assert_eq!(encode(&[0x00, 0xff, 0x10, 0xab]), "00ff10ab");
    assert_eq!(encode(&[]), "");
    assert_eq!(encode(&[0x7f]).len(), 2);
}

#[test]
fn secure_eq_is_string_equality() {
    assert!(secure_eq("abc", "abc"));
    assert!(!secure_eq("abc", "abd"));
    assert!(!secure_eq("ab", "abc"));
    assert!(secure_eq("", ""));
}

#[test]
fn header_fields_reads_timestamp_and_signature() {
    let (t, sig) = header_fields("t=1700000000,v1=abcdef,v0=zzz");
    assert_eq!(t, Some(1700000000));
    assert_eq!(sig.as_deref(), Some("abcdef"));
    let (t, sig) = header_fields(" t=-5 , v1=x ");
    assert_eq!(t, Some(-5));
    assert_eq!(sig.as_deref(), Some("x"));
    let (t, sig) = header_fields("t=12a,v1=first,v1=second");
    assert_eq!(t, None);
    assert_eq!(sig.as_deref(), Some("second"));
    let (t, sig) = header_fields("t=1,t=2");
    assert_eq!(t, Some(2));
    assert_eq!(sig, None);
}

#[test]
fn correctly_signed_payload_is_accepted() {
    let secret = "whsec_test";
    let payload = br#"{"type":"checkout.session.completed"}"#;
    let t = 1_700_000_000i64;
    let header = format!("t={},v1={}", t, stripe_sig(secret, t, payload));
    assert!(matches!(verify_stripe_signature_at(secret, &header, payload, 300, t), Ok(())));
    assert!(matches!(verify_stripe_signature_at(secret, &header, payload, 300, t + 300), Ok(())));
    assert!(matches!(verify_stripe_signature_at(secret, &header, payload, 300, t - 300), Ok(())));
    let spaced = format!("t={}, v1={}", t, stripe_sig(secret, t, payload));
    assert!(matches!(verify_stripe_signature_at(secret, &spaced, payload, 300, t), Ok(())));
}

#[test]
fn signature_errors() {
    let secret = "whsec_test";
    let payload = b"{}";
    let t = 1_700_000_000i64;
    let good = stripe_sig(secret, t, payload);
    let header = format!("t={},v1={}", t, good);
    assert!(matches!(
        verify_stripe_signature_at(secret, &header, payload, 300, t + 301),
        Err(SignatureError::OutsideTolerance)
    ));
    assert!(matches!(
        verify_stripe_signature_at(secret, &format!("v1={}", good), payload, 300, t),
        Err(SignatureError::MissingTimestamp)
    ));
    assert!(matches!(
        verify_stripe_signature_at(secret, &format!("t={}", t), payload, 300, t),
        Err(SignatureError::MissingSignature)
    ));
    assert!(matches!(
        verify_stripe_signature_at("other", &header, payload, 300, t),
        Err(SignatureError::Mismatch)
    ));
    assert!(matches!(
        verify_stripe_signature_at(secret, &header, b"{ }", 300, t),
        Err(SignatureError::Mismatch)
    ));
    // the extreme timestamps do not overflow
    let far = format!("t={},v1={}", i64::MIN, good);
    assert!(matches!(
        verify_stripe_signature_at(secret, &far, payload, 300, i64::MAX),
        Err(SignatureError::OutsideTolerance)
    ));
}

#[test]
fn signature_against_the_clock() {
    let secret = "whsec_live";
    let payload = b"payload";
    let now = time::OffsetDateTime::now_utc().unix_timestamp();
    let header = format!("t={},v1={}", now, stripe_sig(secret, now, payload));
    assert!(matches!(verify_stripe_signature(secret, &header, payload, 300), Ok(())));
    let old = now - 10_000;
    let stale = format!("t={},v1={}", old, stripe_sig(secret, old, payload));
    assert!(matches!(
        verify_stripe_signature(secret, &stale, payload, 300),
        Err(SignatureError::OutsideTolerance)
    ));
}

#[test]
fn price_id_lookup() {
    assert_eq!(price_id_env_key("starter"), "STRIPE_PRICE_ID_STARTER");
    assert_eq!(price_id_env_key("Pro-2"), "STRIPE_PRICE_ID_PRO-2");
    match price_id_for_plan("pro", None) {
        Err(e) => {
            assert!(matches!(e, CheckoutError::MissingPriceId(_, _)));
            assert_eq!(e.message(), "missing env var STRIPE_PRICE_ID_PRO for plan=pro");
        }
        Ok(_) => panic!("expected an error"),
    }
    match price_id_for_plan("pro", Some("price_123".to_string())) {
        Ok(p) => assert_eq!(p, "price_123"),
        Err(_) => panic!("expected a price id"),
    }
}

#[test]
fn checkout_urls_default() {
    assert_eq!(success_url(None), "http://localhost:8000/success?session_id={CHECKOUT_SESSION_ID}");
    assert_eq!(cancel_url(None), "http://localhost:8000/cancel");
    assert_eq!(success_url(Some("https://x/ok".to_string())), "https://x/ok");
    assert_eq!(cancel_url(Some("https://x/no".to_string())), "https://x/no");
}

fn request() -> CheckoutRequest {
    CheckoutRequest {
        tenant_id: "t-1".to_string(),
        email: "dev@example.com".to_string(),
        plan: "starter".to_string(),
    }
}

#[test]
fn checkout_form_fields() {
    let plan = prepare_checkout(
        &request(),
        Some("sk_test".to_string()),
        Ok("price_1".to_string()),
        "https://ok".to_string(),
        "https://cancel".to_string(),
    );
    let plan = match plan {
        Ok(p) => p,
        Err(_) => panic!("expected a checkout plan"),
    };
    assert_eq!(plan.secret_key, "sk_test");
    let form: Vec<(&str, &str)> = plan.form.iter().map(|(a, b)| (a.as_str(), b.as_str())).collect();
    assert_eq!(
        form,
        vec![
            ("mode", "subscription"),
            ("success_url", "https://ok"),
            ("cancel_url", "https://cancel"),
            ("customer_email", "dev@example.com"),
            ("client_reference_id", "t-1"),
            ("line_items[0][price]", "price_1"),
            ("line_items[0][quantity]", "1"),
            ("metadata[tenant_id]", "t-1"),
            ("metadata[plan]", "starter"),
        ]
    );
}

#[test]
fn checkout_errors() {
    let r = prepare_checkout(&request(), None, Ok("p".to_string()), String::new(), String::new());
    match r {
        Err(e) => assert_eq!(e.message(), "STRIPE_SECRET_KEY is required"),
        Ok(_) => panic!("expected an error"),
    }
    let r = prepare_checkout(
        &request(),
        Some("sk".to_string()),
        price_id_for_plan("starter", None),
        String::new(),
        String::new(),
    );
    assert!(matches!(r, Err(CheckoutError::MissingPriceId(_, _))));

    match finish_checkout(false, "402 Payment Required".to_string(), "nope".to_string(), None) {
        Err(e) => assert_eq!(e.message(), "stripe create session failed: status=402 Payment Required body=nope"),
        Ok(_) => panic!("expected an error"),
    }
    assert!(matches!(
        finish_checkout(true, "200 OK".to_string(), "garbage".to_string(), None),
        Err(CheckoutError::Unreadable)
    ));
    let no_url = StripeSession { id: "cs_1".to_string(), url: None };
    match finish_checkout(true, "200 OK".to_string(), String::new(), Some(no_url)) {
        Err(e) => assert_eq!(e.message(), "Stripe response missing checkout URL"),
        Ok(_) => panic!("expected an error"),
    }
    let ok = StripeSession { id: "cs_1".to_string(), url: Some("https://pay".to_string()) };
    match finish_checkout(true, "200 OK".to_string(), String::new(), Some(ok)) {
        Ok(c) => {
            assert_eq!(c.checkout_url, "https://pay");
            assert_eq!(c.session_id, "cs_1");
        }
        Err(_) => panic!("expected a session"),
    }
    assert_eq!(CheckoutError::Unreadable.message(), "parse stripe checkout session response");
}

#[test]
fn checkout_reply_goes_to_reply_subject() {
    let resp = CheckoutResponse { checkout_url: "u".to_string(), session_id: "s".to_string() };
    match checkout_reply(Some("_INBOX.1".to_string()), Ok(resp)) {
        CheckoutReply::Send(to, Ok(r)) => {
            assert_eq!(to, "_INBOX.1");
            assert_eq!(r.session_id, "s");
        }
        _ => panic!("expected a reply"),
    }
    assert!(matches!(
        checkout_reply(None, Err("boom".to_string())),
        CheckoutReply::NoReplySubject
    ));
}

fn settings(secret: Option<&str>) -> WebhookSettings {
    WebhookSettings {
        webhook_secret: secret.map(|s| s.to_string()),
        publish_active_subject: "billing.subscription_active".to_string(),
        publish_canceled_subject: "billing.subscription_canceled".to_string(),
    }
}

fn object(tenant: Option<&str>) -> StripeObject {
    StripeObject {
        tenant_id: tenant.map(|s| s.to_string()),
        customer: Some("cus_1".to_string()),
        subscription: None,
        id: Some("cs_9".to_string()),
    }
}

#[test]
fn webhook_events_from_objects() {
    match checkout_completed_event(&Some(object(Some("t1"))), 42) {
        Ok(e) => {
            assert_eq!(e.tenant_id, "t1");
            assert_eq!(e.stripe_customer_id.as_deref(), Some("cus_1"));
            assert_eq!(e.stripe_subscription_id, None);
            assert_eq!(e.stripe_checkout_session_id, "cs_9");
            assert_eq!(e.activated_at, 42);
        }
        Err(_) => panic!("expected an event"),
    }
    let no_id = StripeObject { id: None, ..object(Some("t1")) };
    match checkout_completed_event(&Some(no_id), 1) {
        Ok(e) => assert_eq!(e.stripe_checkout_session_id, ""),
        Err(_) => panic!("expected an event"),
    }
    assert!(matches!(checkout_completed_event(&None, 1), Err(WebhookError::MissingObject)));
    assert!(matches!(
        checkout_completed_event(&Some(object(None)), 1),
        Err(WebhookError::MissingTenant)
    ));
    match subscription_deleted_event(&Some(object(Some("t2"))), 7) {
        Ok(e) => {
            assert_eq!(e.tenant_id, "t2");
            assert_eq!(e.canceled_at, 7);
        }
        Err(_) => panic!("expected an event"),
    }
    assert!(matches!(subscription_deleted_event(&None, 1), Err(WebhookError::MissingObject)));
}

#[test]
fn webhook_signature_gate() {
    let body = b"{}";
    let (phase, action) = start_webhook(&settings(None), &Some("garbage".to_string()), body, 0);
    assert!(matches!(phase, WebhookPhase::AwaitEvent));
    assert!(matches!(action, WebhookAction::ParseBody));
    let (phase, action) = start_webhook(&settings(Some("whsec")), &None, body, 0);
    assert!(matches!(phase, WebhookPhase::Finished));
    assert!(matches!(action, WebhookAction::Respond(400, ref t) if t == "invalid signature"));
    let (phase, action) = start_webhook(&settings(None), &None, body, 0);
    assert!(matches!(phase, WebhookPhase::AwaitEvent));
    assert!(matches!(action, WebhookAction::ParseBody));
    let (phase, action) = start_webhook(&settings(Some("whsec")), &Some("t=1,v1=00".to_string()), body, 1);
    assert!(matches!(phase, WebhookPhase::Finished));
    match action {
        WebhookAction::Respond(code, text) => {
            assert_eq!(code, 400);
            assert_eq!(text, "invalid signature");
        }
        _ => panic!("expected a response"),
    }
    let t = 1_700_000_000;
    let header = format!("t={},v1={}", t, stripe_sig("whsec", t, body));
    let (phase, _) = start_webhook(&settings(Some("whsec")), &Some(header), body, t);
    assert!(matches!(phase, WebhookPhase::AwaitEvent));
}

fn respond(r: (WebhookPhase, WebhookAction)) -> (u16, String) {
    assert!(matches!(r.0, WebhookPhase::Finished));
    match r.1 {
        WebhookAction::Respond(c, t) => (c, t),
        _ => panic!("expected a response"),
    }
}

#[test]
fn webhook_steps() {
    let s = settings(None);
    assert_eq!(
        respond(WebhookPhase::AwaitEvent.step(&s, WebhookEvent::Parsed(None), 5)),
        (400, "invalid JSON".to_string())
    );
    let completed = StripeEvent {
        event_type: Some("checkout.session.completed".to_string()),
        object: Some(object(Some("t1"))),
    };
    match WebhookPhase::AwaitEvent.step(&s, WebhookEvent::Parsed(Some(completed)), 5) {
        (WebhookPhase::AwaitPublish, WebhookAction::Publish(subject, BillingEvent::Active(a))) => {
            assert_eq!(subject, "billing.subscription_active");
            assert_eq!(a.tenant_id, "t1");
            assert_eq!(a.activated_at, 5);
        }
        _ => panic!("expected a publish"),
    }
    let deleted = StripeEvent {
        event_type: Some("customer.subscription.deleted".to_string()),
        object: Some(object(Some("t2"))),
    };
    match WebhookPhase::AwaitEvent.step(&s, WebhookEvent::Parsed(Some(deleted)), 6) {
        (WebhookPhase::AwaitPublish, WebhookAction::Publish(subject, BillingEvent::Canceled(c))) => {
            assert_eq!(subject, "billing.subscription_canceled");
            assert_eq!(c.tenant_id, "t2");
            assert_eq!(c.canceled_at, 6);
        }
        _ => panic!("expected a publish"),
    }
    let broken = StripeEvent {
        event_type: Some("customer.subscription.deleted".to_string()),
        object: None,
    };
    assert_eq!(
        respond(WebhookPhase::AwaitEvent.step(&s, WebhookEvent::Parsed(Some(broken)), 6)),
        (500, "error".to_string())
    );
    let other = StripeEvent { event_type: Some("invoice.paid".to_string()), object: None };
    assert_eq!(
        respond(WebhookPhase::AwaitEvent.step(&s, WebhookEvent::Parsed(Some(other)), 6)),
        (200, "ok".to_string())
    );
    let untyped = StripeEvent { event_type: None, object: Some(object(Some("t"))) };
    assert_eq!(
        respond(WebhookPhase::AwaitEvent.step(&s, WebhookEvent::Parsed(Some(untyped)), 6)),
        (200, "ok".to_string())
    );
    assert_eq!(
        respond(WebhookPhase::AwaitPublish.step(&s, WebhookEvent::Published, 6)),
        (200, "ok".to_string())
    );
    assert_eq!(
        respond(WebhookPhase::AwaitPublish.step(&s, WebhookEvent::PublishFailed, 6)),
        (500, "error".to_string())
    );
}
