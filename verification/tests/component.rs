use supahost::billing::checkout::CheckoutResponse;
use supahost::component::config::{
    admin_token, billing_mode, billing_subject, deprovision_subject, provision_subject,
    public_base_domain, reconcile_subject, tenant_key, tenant_key_prefix,
};
use supahost::component::flow::{
    start_request, ComponentAction, ComponentBody, ComponentEvent, ComponentPhase, ComponentReply,
    ComponentSettings, TenantRecord,
};
use supahost::component::routes::{route, ComponentRoute};

#[test]
fn configuration_defaults() {
    assert_eq!(tenant_key_prefix(None), "tenant:");
    assert_eq!(public_base_domain(None), "supabase.localhost");
    assert_eq!(billing_subject(None), "billing.create_checkout");
    assert_eq!(billing_mode(None), "direct");
    assert_eq!(provision_subject(None), "tenant.provision");
    assert_eq!(deprovision_subject(None), "tenant.deprovision");
    assert_eq!(reconcile_subject(None), "tenant.reconcile");
    assert_eq!(admin_token(None), None);
    assert_eq!(admin_token(Some("t".to_string())), Some("t".to_string()));
    assert_eq!(tenant_key_prefix(Some("t/".to_string())), "t/");
    assert_eq!(billing_mode(Some("stripe".to_string())), "stripe");
    assert_eq!(tenant_key("tenant:", "abc"), "tenant:abc");
}

fn id_of(r: ComponentRoute) -> Option<(u8, String)> {
    match r {
        ComponentRoute::GetTenant(id) => Some((1, id)),
        ComponentRoute::AdminReconcile(id) => Some((2, id)),
        ComponentRoute::AdminDeprovision(id) => Some((3, id)),
        _ => None,
    }
}

#[test]
fn routing() {
    let none: Option<String> = None;
    assert!(matches!(route("GET", "/healthz", &none, ""), ComponentRoute::Health));
    assert!(matches!(route("POST", "/v1/tenants", &none, ""), ComponentRoute::CreateTenant));
    assert_eq!(id_of(route("GET", "/v1/tenants/abc", &none, "")), Some((1, "abc".to_string())));
    assert!(matches!(route("GET", "/v1/tenants/", &none, ""), ComponentRoute::BadRequest));
    assert!(matches!(route("POST", "/v1/tenants/abc", &none, ""), ComponentRoute::NotFound));
    assert!(matches!(route("GET", "/nope", &none, ""), ComponentRoute::NotFound));
    assert_eq!(
        id_of(route("POST", "/v1/admin/tenants/abc/reconcile", &none, "")),
        Some((2, "abc".to_string()))
    );
    assert_eq!(
        id_of(route("POST", "/v1/admin/tenants/abc/deprovision/", &none, "")),
        None
    );
    assert_eq!(
        id_of(route("POST", "/v1/admin/tenants/abc/deprovision", &none, "")),
        Some((3, "abc".to_string()))
    );
    assert!(matches!(route("POST", "/v1/admin/tenants//reconcile", &none, ""), ComponentRoute::BadRequest));
    assert!(matches!(route("GET", "/v1/admin/tenants/abc/reconcile", &none, ""), ComponentRoute::NotFound));
}

#[test]
fn component_admin_routes_need_the_token() {
    let token = Some("s3cret".to_string());
    assert!(matches!(
        route("POST", "/v1/admin/tenants/abc/reconcile", &token, ""),
        ComponentRoute::Unauthorized
    ));
    assert!(matches!(
        route("GET", "/v1/admin/tenants/whatever", &token, "Bearer wrong"),
        ComponentRoute::Unauthorized
    ));
    assert_eq!(
        id_of(route("POST", "/v1/admin/tenants/abc/reconcile", &token, "Bearer s3cret")),
        Some((2, "abc".to_string()))
    );
}

fn settings(mode: &str) -> ComponentSettings {
    ComponentSettings {
        tenant_key_prefix: "tenant:".to_string(),
        public_base_domain: "supabase.localhost".to_string(),
        billing_mode: mode.to_string(),
        provision_subject: "tenant.provision".to_string(),
        deprovision_subject: "tenant.deprovision".to_string(),
        reconcile_subject: "tenant.reconcile".to_string(),
    }
}

fn json(a: ComponentAction) -> (u16, ComponentBody) {
    match a {
        ComponentAction::Reply(ComponentReply::Json(code, body)) => (code, body),
        _ => panic!("expected a JSON answer"),
    }
}

fn stored(id: &str) -> TenantRecord {
    TenantRecord {
        tenant_id: id.to_string(),
        email: "e@x".to_string(),
        plan: "starter".to_string(),
        status: "active".to_string(),
        stripe_checkout_session_id: None,
        api_url: None,
        anon_key: Some("anon".to_string()),
        service_key: None,
        dashboard_username: None,
        dashboard_password: None,
    }
}

#[test]
fn health_and_errors() {
    let s = settings("direct");
    match start_request(&s, ComponentRoute::Health) {
        (ComponentPhase::Finished, ComponentAction::Reply(ComponentReply::Text(200, t))) => assert_eq!(t, "ok"),
        _ => panic!("expected ok"),
    }
    match json(start_request(&s, ComponentRoute::Unauthorized).1) {
        (401, ComponentBody::Error(c)) => assert_eq!(c, "unauthorized"),
        _ => panic!(),
    }
    match json(start_request(&s, ComponentRoute::BadRequest).1) {
        (400, ComponentBody::Error(c)) => assert_eq!(c, "bad_request"),
        _ => panic!(),
    }
    match json(start_request(&s, ComponentRoute::NotFound).1) {
        (404, ComponentBody::Error(c)) => assert_eq!(c, "not_found"),
        _ => panic!(),
    }
}

#[test]
fn create_direct() {
    let s = settings("direct");
    let (p, a) = start_request(&s, ComponentRoute::CreateTenant);
    assert!(matches!(a, ComponentAction::ReadCreateBody));
    let (p, a) = p.step_with_id(&s, ComponentEvent::CreateBody(Some(("e@x".to_string(), "starter".to_string()))), "abc".to_string());
    match &a {
        ComponentAction::Put(key, rec) => {
            assert_eq!(key, "tenant:abc");
            assert_eq!(rec.status, "provisioning");
            assert_eq!(rec.api_url, None);
        }
        _ => panic!("expected a put"),
    }
    let (p, a) = p.step(&s, ComponentEvent::Stored);
    match &a {
        ComponentAction::Publish(subject, msg) => {
            assert_eq!(subject, "tenant.provision");
            assert_eq!(msg.contact, Some(("e@x".to_string(), "starter".to_string())));
        }
        _ => panic!("expected a publish"),
    }
    let (p, a) = p.step(&s, ComponentEvent::Published);
    assert!(matches!(a, ComponentAction::Put(_, ref r) if r.status == "provisioning"));
    let (p, a) = p.step(&s, ComponentEvent::Stored);
    assert!(matches!(p, ComponentPhase::Finished));
    match json(a) {
        (200, ComponentBody::ProvisioningStarted(id, status, url)) => {
            assert_eq!(id, "abc");
            assert_eq!(status, "provisioning");
            assert_eq!(url, "http://abc.supabase.localhost");
        }
        _ => panic!(),
    }
}

#[test]
fn create_through_stripe() {
    let s = settings("stripe");
    let (p, _) = start_request(&s, ComponentRoute::CreateTenant);
    let (p, _) = p.step_with_id(&s, ComponentEvent::CreateBody(Some(("e@x".to_string(), "pro".to_string()))), "abc".to_string());
    let (p, a) = p.step(&s, ComponentEvent::Stored);
    assert!(matches!(a, ComponentAction::Put(_, ref r) if r.status == "pending_checkout"));
    let (p, a) = p.step(&s, ComponentEvent::Stored);
    assert!(matches!(a, ComponentAction::RequestCheckout(ref r) if r.plan == "pro"));
    let resp = CheckoutResponse { checkout_url: "https://pay".to_string(), session_id: "cs".to_string() };
    let (p, a) = p.step(&s, ComponentEvent::CheckoutReplied(Ok(resp)));
    assert!(matches!(a, ComponentAction::Put(_, ref r) if r.status == "checkout_created"));
    let (_, a) = p.step(&s, ComponentEvent::Stored);
    match json(a) {
        (200, ComponentBody::CheckoutCreated(id, url, status)) => {
            assert_eq!(id, "abc");
            assert_eq!(url, "https://pay");
            assert_eq!(status, "checkout_created");
        }
        _ => panic!(),
    }
}

#[test]
fn create_failures() {
    let s = settings("stripe");
    let (p, _) = start_request(&s, ComponentRoute::CreateTenant);
    match json(p.step(&s, ComponentEvent::CreateBody(None)).1) {
        (500, ComponentBody::Internal(m)) => assert_eq!(m, "invalid JSON body (expected {email, plan})"),
        _ => panic!(),
    }
    let (p, _) = start_request(&s, ComponentRoute::CreateTenant);
    let (p, a) = p.step(&s, ComponentEvent::CreateBody(Some(("e".to_string(), "p".to_string()))));
    match &a {
        ComponentAction::Put(key, rec) => {
            assert_eq!(rec.tenant_id.len(), 36);
            assert_eq!(rec.tenant_id.chars().nth(14), Some('4'));
            assert_eq!(key, &format!("tenant:{}", rec.tenant_id));
        }
        _ => panic!("expected a put"),
    }
    let (p, _) = p.step(&s, ComponentEvent::Stored);
    let (p, _) = p.step(&s, ComponentEvent::Stored);
    match json(p.step(&s, ComponentEvent::CheckoutReplied(Err("billing request failed".to_string()))).1) {
        (500, ComponentBody::Internal(m)) => assert_eq!(m, "billing request failed"),
        _ => panic!(),
    }
}

#[test]
fn read_tenant() {
    let s = settings("direct");
    let (p, a) = start_request(&s, ComponentRoute::GetTenant("abc".to_string()));
    assert!(matches!(a, ComponentAction::Get(ref k) if k == "tenant:abc"));
    match json(p.step(&s, ComponentEvent::Fetched(Some(stored("abc")))).1) {
        (200, ComponentBody::Tenant(r)) => {
            assert_eq!(r.api_url.as_deref(), Some("http://abc.supabase.localhost"));
            assert_eq!(r.anon_key.as_deref(), Some("anon"));
        }
        _ => panic!(),
    }
    let (p, _) = start_request(&s, ComponentRoute::GetTenant("abc".to_string()));
    let mut with_url = stored("abc");
    with_url.api_url = Some("http://custom".to_string());
    match json(p.step(&s, ComponentEvent::Fetched(Some(with_url))).1) {
        (200, ComponentBody::Tenant(r)) => assert_eq!(r.api_url.as_deref(), Some("http://custom")),
        _ => panic!(),
    }
    let (p, _) = start_request(&s, ComponentRoute::GetTenant("zzz".to_string()));
    match json(p.step(&s, ComponentEvent::Fetched(None)).1) {
        (404, ComponentBody::Error(c)) => assert_eq!(c, "not_found"),
        _ => panic!(),
    }
}

#[test]
fn admin_operations() {
    let s = settings("direct");
    let (p, _) = start_request(&s, ComponentRoute::AdminDeprovision("abc".to_string()));
    let (p, a) = p.step(&s, ComponentEvent::Fetched(Some(stored("abc"))));
    assert!(matches!(a, ComponentAction::Put(ref k, ref r) if k == "tenant:abc" && r.status == "deprovisioning"));
    let (p, a) = p.step(&s, ComponentEvent::Stored);
    match &a {
        ComponentAction::Publish(subject, msg) => {
            assert_eq!(subject, "tenant.deprovision");
            assert_eq!(msg.tenant_id, "abc");
            assert_eq!(msg.contact, None);
        }
        _ => panic!("expected a publish"),
    }
    match json(p.step(&s, ComponentEvent::Published).1) {
        (200, ComponentBody::StatusChanged(id, status)) => {
            assert_eq!(id, "abc");
            assert_eq!(status, "deprovisioning");
        }
        _ => panic!(),
    }
    let (p, _) = start_request(&s, ComponentRoute::AdminReconcile("abc".to_string()));
    let (p, a) = p.step(&s, ComponentEvent::Fetched(Some(stored("abc"))));
    assert!(matches!(a, ComponentAction::Put(_, ref r) if r.status == "reconciling"));
    let (_, a) = p.step(&s, ComponentEvent::Stored);
    assert!(matches!(a, ComponentAction::Publish(ref subject, _) if subject == "tenant.reconcile"));
    let (p, _) = start_request(&s, ComponentRoute::AdminReconcile("abc".to_string()));
    match json(p.step(&s, ComponentEvent::Fetched(None)).1) {
        (404, ComponentBody::Error(c)) => assert_eq!(c, "not_found"),
        _ => panic!(),
    }
}
