use supahost::access::{require_admin, AuthError};
use supahost::billing::checkout::CheckoutResponse;
use supahost::platform_api::errors::ApiError;
use supahost::platform_api::flows::{
    checkout_reply_outcome, get_tenant_reply, lifecycle_request, start_create_tenant,
    start_create_tenant_with_id, start_lifecycle, tenant_console_url, tenant_gateway_url,
    AdminHeaders, ApiSettings, CreatePhase, GetTenantReply, LifecyclePhase, LifecycleRequest,
    LifecycleRoute,
};
use supahost::platform_api::lifecycle::{apply_lifecycle_action, LifecycleAction, LifecycleSubjects};
use supahost::platform_api::messages::{ApiAction, ApiEvent, ApiReply};
use supahost::platform_api::record::TenantRecord;

fn record(status: &str, count: u8) -> TenantRecord {
    TenantRecord {
        tenant_id: "t1".to_string(),
        email: "dev@example.com".to_string(),
        plan: "starter".to_string(),
        status: status.to_string(),
        desired_state: "active".to_string(),
        deployment_mode: "single".to_string(),
        active_deployment_count: count,
        stripe_checkout_session_id: None,
        stripe_customer_id: None,
        stripe_subscription_id: None,
        api_url: Some("http://t1.supabase.localhost".to_string()),
        gateway_url: Some("http://t1.supabase.localhost".to_string()),
        console_url: Some("http://t1.supabase.localhost".to_string()),
        anon_key: None,
        service_key: None,
        dashboard_username: None,
        dashboard_password: None,
    }
}

fn settings(billing_mode: &str, admin_token: Option<&str>) -> ApiSettings {
    ApiSettings {
        tenant_key_prefix: "tenant:".to_string(),
        billing_mode: billing_mode.to_string(),
        provision_request_subject: "tenant.provision".to_string(),
        subjects: LifecycleSubjects {
            pause: "tenant.pause".to_string(),
            resume: "tenant.resume".to_string(),
            delete: "tenant.delete".to_string(),
            reconcile: "tenant.reconcile".to_string(),
        },
        public_tenant_base_domain: "supabase.localhost".to_string(),
        admin_token: admin_token.map(|s| s.to_string()),
    }
}

#[test]
fn desired_states_of_actions() {
    assert_eq!(LifecycleAction::Pause.desired_state(), "paused");
    assert_eq!(LifecycleAction::Resume.desired_state(), "active");
    assert_eq!(LifecycleAction::Reconcile.desired_state(), "active");
    assert_eq!(LifecycleAction::Delete.desired_state(), "deleted");
}

#[test]
fn next_status_of_actions() {
    assert_eq!(LifecycleAction::Pause.next_status(&record("checkout_created", 0)), "paused");
    assert_eq!(LifecycleAction::Pause.next_status(&record("pause_requested", 0)), "paused");
    assert_eq!(LifecycleAction::Pause.next_status(&record("active", 1)), "pausing");
    assert_eq!(LifecycleAction::Pause.next_status(&record("paused", 1)), "pausing");
    assert_eq!(LifecycleAction::Resume.next_status(&record("active", 1)), "active");
    assert_eq!(LifecycleAction::Resume.next_status(&record("active", 0)), "provisioning");
    assert_eq!(LifecycleAction::Resume.next_status(&record("paused", 0)), "provisioning");
    assert_eq!(LifecycleAction::Reconcile.next_status(&record("active", 1)), "reconciling");
    assert_eq!(LifecycleAction::Delete.next_status(&record("deleted", 0)), "deleted");
    assert_eq!(LifecycleAction::Delete.next_status(&record("active", 1)), "deleting");
}

#[test]
fn subjects_of_actions() {
    let s = settings("direct", None).subjects;
    assert_eq!(LifecycleAction::Pause.subject(&s), "tenant.pause");
    assert_eq!(LifecycleAction::Resume.subject(&s), "tenant.resume");
    assert_eq!(LifecycleAction::Delete.subject(&s), "tenant.delete");
    assert_eq!(LifecycleAction::Reconcile.subject(&s), "tenant.reconcile");
}

#[test]
fn lifecycle_accepted_in_every_phase_but_deleted() {
    for status in ["provisioning", "active", "paused", "suspended", "reconciling", "pending_checkout"] {
        for action in [LifecycleAction::Pause, LifecycleAction::Resume, LifecycleAction::Delete, LifecycleAction::Reconcile] {
            assert!(apply_lifecycle_action(action, record(status, 1)).is_ok());
        }
    }
    for action in [LifecycleAction::Pause, LifecycleAction::Resume, LifecycleAction::Reconcile] {
        match apply_lifecycle_action(action, record("deleted", 0)) {
            Err(e) => {
                assert_eq!(e.status, 409);
                assert_eq!(e.error, "conflict");
                assert_eq!(e.message.as_deref(), Some("deleted deployments cannot be resumed or paused"));
            }
            Ok(_) => panic!("deleted tenants accept only delete"),
        }
    }
    assert!(apply_lifecycle_action(LifecycleAction::Delete, record("deleted", 0)).is_ok());
}

#[test]
fn lifecycle_record_updates() {
    let r = match apply_lifecycle_action(LifecycleAction::Pause, record("active", 0)) {
        Ok(r) => r,
        Err(_) => panic!(),
    };
    assert_eq!(r.status, "paused");
    assert_eq!(r.desired_state, "paused");
    let r = match apply_lifecycle_action(LifecycleAction::Pause, record("active", 1)) {
        Ok(r) => r,
        Err(_) => panic!(),
    };
    assert_eq!(r.status, "pausing");
    assert_eq!(r.active_deployment_count, 1);
    let r = match apply_lifecycle_action(LifecycleAction::Delete, record("active", 1)) {
        Ok(r) => r,
        Err(_) => panic!(),
    };
    assert_eq!(r.status, "deleting");
    assert_eq!(r.desired_state, "deleted");
    assert_eq!(r.active_deployment_count, 0);
    let r = match apply_lifecycle_action(LifecycleAction::Delete, record("paused", 0)) {
        Ok(r) => r,
        Err(_) => panic!(),
    };
    assert_eq!(r.status, "deleted");
    let r = match apply_lifecycle_action(LifecycleAction::Resume, record("paused", 0)) {
        Ok(r) => r,
        Err(_) => panic!(),
    };
    assert_eq!(r.status, "provisioning");
    assert_eq!(r.desired_state, "active");
    assert_eq!(r.email, "dev@example.com");
}

#[test]
fn api_error_codes_from_status() {
    let e = ApiError::new(409, "x");
    assert_eq!(e.error, "conflict");
    assert_eq!(e.message.as_deref(), Some("x"));
    assert_eq!(ApiError::new(500, "m").error, "internal_server_error");
    assert_eq!(ApiError::new(404, "m").error, "not_found");
    assert_eq!(ApiError::new(418, "m").error, "i'm_a_teapot");
    assert_eq!(ApiError::new(599, "m").error, "error");
    let nf = ApiError::not_found("not_found");
    assert_eq!(nf.status, 404);
    assert_eq!(nf.error, "not_found");
    assert_eq!(nf.message, None);
    let i = ApiError::internal("boom");
    assert_eq!(i.status, 500);
    assert_eq!(i.error, "internal_server_error");
}

#[test]
fn tenant_urls() {
    assert_eq!(tenant_gateway_url("supabase.localhost", "abc"), "http://abc.supabase.localhost");
    assert_eq!(tenant_console_url("supabase.localhost", "abc"), "http://abc.supabase.localhost");
}

#[test]
fn admin_check() {
    assert!(require_admin(&None, "").is_ok());
    assert!(require_admin(&Some("s3cret".to_string()), "Bearer s3cret").is_ok());
    assert!(matches!(require_admin(&Some("s3cret".to_string()), "Bearer other"), Err(AuthError::Unauthorized)));
    assert!(require_admin(&Some("s3cret".to_string()), "").is_err());
}

fn reply(a: ApiAction) -> ApiReply {
    match a {
        ApiAction::Reply(r) => r,
        _ => panic!("expected a reply"),
    }
}

#[test]
fn create_tenant_direct() {
    let s = settings("direct", None);
    let (phase, action) = start_create_tenant_with_id(&s, "abc", "dev@example.com", "starter");
    match &action {
        ApiAction::Write(key, rec) => {
            assert_eq!(key, "tenant:abc");
            assert_eq!(rec.status, "provisioning");
            assert_eq!(rec.desired_state, "active");
            assert_eq!(rec.deployment_mode, "single");
            assert_eq!(rec.active_deployment_count, 0);
            assert_eq!(rec.console_url.as_deref(), Some("http://abc.supabase.localhost"));
        }
        _ => panic!("expected a write"),
    }
    let (phase, action) = phase.step(&s, ApiEvent::Written);
    match &action {
        ApiAction::Publish(subject, msg) => {
            assert_eq!(subject, "tenant.provision");
            assert_eq!(msg.tenant_id, "abc");
            assert_eq!(msg.contact, Some(("dev@example.com".to_string(), "starter".to_string())));
        }
        _ => panic!("expected a publish"),
    }
    let (phase, action) = phase.step(&s, ApiEvent::Published);
    assert!(matches!(phase, CreatePhase::Finished));
    match reply(action) {
        ApiReply::Created(c) => {
            assert_eq!(c.tenant_id, "abc");
            assert_eq!(c.status, "provisioning");
            assert_eq!(c.checkout_url, None);
            assert_eq!(c.gateway_url.as_deref(), Some("http://abc.supabase.localhost"));
        }
        _ => panic!("expected a creation"),
    }
}

#[test]
fn create_tenant_through_stripe() {
    let s = settings("stripe", None);
    let (phase, _) = start_create_tenant_with_id(&s, "abc", "dev@example.com", "pro");
    let (phase, action) = phase.step(&s, ApiEvent::Written);
    match &action {
        ApiAction::Write(_, rec) => assert_eq!(rec.status, "pending_checkout"),
        _ => panic!("expected a write"),
    }
    let (phase, action) = phase.step(&s, ApiEvent::Written);
    match &action {
        ApiAction::RequestCheckout(req) => {
            assert_eq!(req.tenant_id, "abc");
            assert_eq!(req.plan, "pro");
        }
        _ => panic!("expected a checkout request"),
    }
    let session = CheckoutResponse { checkout_url: "https://pay".to_string(), session_id: "cs_1".to_string() };
    let (phase, action) = phase.step(&s, ApiEvent::CheckoutReplied(Ok(session)));
    match &action {
        ApiAction::Write(_, rec) => {
            assert_eq!(rec.status, "checkout_created");
            assert_eq!(rec.stripe_checkout_session_id.as_deref(), Some("cs_1"));
        }
        _ => panic!("expected a write"),
    }
    let (_, action) = phase.step(&s, ApiEvent::Written);
    match reply(action) {
        ApiReply::Created(c) => {
            assert_eq!(c.status, "checkout_created");
            assert_eq!(c.checkout_url.as_deref(), Some("https://pay"));
        }
        _ => panic!("expected a creation"),
    }
}

#[test]
fn create_tenant_billing_failure() {
    let s = settings("stripe", None);
    let (phase, _) = start_create_tenant_with_id(&s, "abc", "e", "p");
    let (phase, _) = phase.step(&s, ApiEvent::Written);
    let (phase, _) = phase.step(&s, ApiEvent::Written);
    let outcome = checkout_reply_outcome(Some("no price".to_string()), Err("unused".to_string()));
    let (_, action) = phase.step(&s, ApiEvent::CheckoutReplied(outcome));
    match reply(action) {
        ApiReply::Failed(e) => {
            assert_eq!(e.status, 500);
            assert_eq!(e.message.as_deref(), Some("billing service error: no price"));
        }
        _ => panic!("expected a failure"),
    }
}

#[test]
fn create_tenant_with_fresh_id() {
    let s = settings("direct", None);
    let (phase, _) = start_create_tenant(&s, "a@b", "starter");
    match phase {
        CreatePhase::AwaitInitialWrite(rec) => {
            assert_eq!(rec.tenant_id.len(), 36);
            assert_eq!(rec.tenant_id.chars().nth(14), Some('4'));
            assert_eq!(rec.api_url, Some(format!("http://{}.supabase.localhost", rec.tenant_id)));
        }
        _ => panic!("expected the first write"),
    }
}

fn request(route: LifecycleRoute, auth: Option<&str>) -> LifecycleRequest {
    lifecycle_request(route, "t1".to_string(), AdminHeaders { authorization: auth.map(|s| s.to_string()) })
}

#[test]
fn admin_routes_need_the_token() {
    let s = settings("direct", Some("tok"));
    let (phase, action) = start_lifecycle(&s, &request(LifecycleRoute::AdminPause, Some("Bearer bad")));
    assert!(matches!(phase, LifecyclePhase::Finished));
    match reply(action) {
        ApiReply::Failed(e) => {
            assert_eq!(e.status, 500);
            assert_eq!(e.message.as_deref(), Some("unauthorized"));
        }
        _ => panic!("expected a failure"),
    }
    let (_, action) = start_lifecycle(&s, &request(LifecycleRoute::AdminPause, Some("Bearer tok")));
    assert!(matches!(action, ApiAction::Load(ref k) if k == "tenant:t1"));
    let (_, action) = start_lifecycle(&s, &request(LifecycleRoute::Pause, None));
    assert!(matches!(action, ApiAction::Load(_)));
    let no_headers = LifecycleRequest {
        tenant_id: "t1".to_string(),
        action: LifecycleAction::Pause,
        require_admin_auth: true,
        headers: None,
    };
    match reply(start_lifecycle(&s, &no_headers).1) {
        ApiReply::Failed(e) => assert_eq!(e.message.as_deref(), Some("missing headers")),
        _ => panic!("expected a failure"),
    }
}

#[test]
fn deprovision_route_is_a_pause() {
    let r = request(LifecycleRoute::AdminDeprovision, None);
    assert!(matches!(r.action, LifecycleAction::Pause));
    assert!(r.require_admin_auth);
    let r = request(LifecycleRoute::Delete, Some("x"));
    assert!(matches!(r.action, LifecycleAction::Delete));
    assert!(!r.require_admin_auth);
    assert!(r.headers.is_none());
}

#[test]
fn lifecycle_flow_pause() {
    let s = settings("direct", None);
    let req = request(LifecycleRoute::Pause, None);
    let (phase, _) = start_lifecycle(&s, &req);
    let (phase, action) = phase.step(&s, &req, ApiEvent::Loaded(Some(record("active", 1))));
    match &action {
        ApiAction::Write(key, rec) => {
            assert_eq!(key, "tenant:t1");
            assert_eq!(rec.status, "pausing");
            assert_eq!(rec.desired_state, "paused");
        }
        _ => panic!("expected a write"),
    }
    let (phase, action) = phase.step(&s, &req, ApiEvent::Written);
    match &action {
        ApiAction::Publish(subject, msg) => {
            assert_eq!(subject, "tenant.pause");
            assert_eq!(msg.tenant_id, "t1");
            assert_eq!(msg.contact, None);
        }
        _ => panic!("expected a publish"),
    }
    let (phase, action) = phase.step(&s, &req, ApiEvent::Published);
    assert!(matches!(phase, LifecyclePhase::Finished));
    match reply(action) {
        ApiReply::Ack(a) => {
            assert_eq!(a.tenant_id, "t1");
            assert_eq!(a.status, "pausing");
            assert_eq!(a.desired_state, "paused");
            assert_eq!(a.active_deployment_count, 1);
        }
        _ => panic!("expected an acknowledgement"),
    }
}

#[test]
fn lifecycle_flow_resume_carries_contact() {
    let s = settings("direct", None);
    let req = request(LifecycleRoute::Resume, None);
    let (phase, _) = start_lifecycle(&s, &req);
    let (phase, _) = phase.step(&s, &req, ApiEvent::Loaded(Some(record("paused", 0))));
    let (_, action) = phase.step(&s, &req, ApiEvent::Written);
    match &action {
        ApiAction::Publish(subject, msg) => {
            assert_eq!(subject, "tenant.resume");
            assert_eq!(msg.contact, Some(("dev@example.com".to_string(), "starter".to_string())));
        }
        _ => panic!("expected a publish"),
    }
}

#[test]
fn lifecycle_flow_missing_and_deleted() {
    let s = settings("direct", None);
    let req = request(LifecycleRoute::Resume, None);
    let (phase, _) = start_lifecycle(&s, &req);
    match reply(phase.step(&s, &req, ApiEvent::Loaded(None)).1) {
        ApiReply::Failed(e) => {
            assert_eq!(e.status, 404);
            assert_eq!(e.error, "not_found");
        }
        _ => panic!("expected a failure"),
    }
    let (phase, _) = start_lifecycle(&s, &req);
    match reply(phase.step(&s, &req, ApiEvent::Loaded(Some(record("deleted", 0)))).1) {
        ApiReply::Failed(e) => assert_eq!(e.status, 409),
        _ => panic!("expected a failure"),
    }
    let (phase, _) = start_lifecycle(&s, &req);
    match reply(phase.step(&s, &req, ApiEvent::Published).1) {
        ApiReply::Failed(e) => assert_eq!(e.status, 500),
        _ => panic!("expected a failure"),
    }
}

#[test]
fn get_tenant_answers() {
    match get_tenant_reply(Some(record("active", 1))) {
        GetTenantReply::Found(r) => assert_eq!(r.tenant_id, "t1"),
        _ => panic!("expected the record"),
    }
    match get_tenant_reply(None) {
        GetTenantReply::NotFound(e) => {
            assert_eq!(e.status, 404);
            assert_eq!(e.error, "not_found");
        }
        _ => panic!("expected not found"),
    }
}
