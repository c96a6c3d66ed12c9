use supahost::provisioner::compose::{
    ensure_edge_network, patch_realtime_healthcheck, patch_supabase_compose_for_tenant,
    set_yaml_string, ComposeError,
};
use supahost::provisioner::env::set_env;
use supahost::provisioner::jobs::{
    JobAction, JobEvent, ProvisionJob, ProvisionPhase, TeardownJob, TeardownKind, TeardownPhase,
    TenantSecrets,
};
use supahost::provisioner::layout::{
    patch_kong_config, render_tenant_env, repair_kong_config, tenant_traefik_route,
    tenant_traefik_route_file, traefik_dynamic_dir,
};
use supahost::provisioner::naming::{
    compose_project_name, join_path, realtime_tenant_id, tenant_console_url,
    tenant_gateway_url, tenant_kong_container_name, tenant_prefix, tenant_slug,
    tenant_supabase_path,
};
use supahost::provisioner::record::{empty_tenant_record, TenantRecord};
use supahost::provisioner::requests::{
    BillingActiveEvent, BillingCanceledEvent, ProvisionRequest, ProvisionerSettings, TenantRequest,
};
use supahost::provisioner::secrets::{
    generate_tenant_secrets, rand_hex, rand_string, sign_jwt, sign_jwt_at,
};
use supahost::provisioner::yaml::{get_key, Yaml};

const TID: &str = "3f2a1b9c-1234-4abc-8def-0123456789ab";

#[test]
fn tenant_naming() {
    assert_eq!(tenant_slug(TID), "3f2a1b9c12344abc8def0123456789ab");
    assert_eq!(tenant_slug("Ab_C-d!"), "abcd");
    assert_eq!(tenant_prefix(TID), "t3f2a1b9c12");
    assert_eq!(tenant_prefix("ab"), "tab");
    assert_eq!(tenant_kong_container_name(TID), "t3f2a1b9c12-supabase-kong");
    assert_eq!(compose_project_name(TID), "tenant_3f2a1b9c12344abc8def0123456789ab");
    assert_eq!(realtime_tenant_id(TID), "realtime-t3f2a1b9c12");
}

#[test]
fn tenant_urls_and_paths() {
    assert_eq!(tenant_gateway_url("supabase.localhost", "abc"), "http://abc.supabase.localhost");
    assert_eq!(tenant_console_url("supabase.localhost", "abc"), "http://abc.supabase.localhost");
    assert_eq!(tenant_console_url("..supabase.localhost//", "abc"), "http://abc.supabase.localhost");
    assert_eq!(tenant_gateway_url(".x/", "abc"), "http://abc..x/");
    assert_eq!(tenant_supabase_path("./tenants", "abc"), "./tenants/abc/supabase");
    assert_eq!(tenant_supabase_path("/data/", "abc"), "/data/abc/supabase");
    assert_eq!(tenant_supabase_path("", "abc"), "abc/supabase");
    assert_eq!(join_path("/a", "/b"), "/b");
}

#[test]
fn empty_record_defaults() {
    let r = empty_tenant_record("abc", "supabase.localhost", "http://localhost:3000");
    assert_eq!(r.tenant_id, "abc");
    assert_eq!(r.status, "unknown");
    assert_eq!(r.desired_state, "active");
    assert_eq!(r.deployment_mode, "single");
    assert_eq!(r.active_deployment_count, 0);
    assert_eq!(r.email, None);
    assert_eq!(r.api_url.as_deref(), Some("http://abc.supabase.localhost"));
    assert_eq!(r.console_url.as_deref(), Some("http://abc.supabase.localhost"));
}

#[test]
fn set_env_replaces_and_appends() {
    assert_eq!(set_env("A=1\nB=2\n", "B", "3"), "A=1\nB=3\n");
    assert_eq!(set_env("A=1\r\nB=2", "C", "x"), "A=1\nB=2\nC=x\n");
    assert_eq!(set_env("", "K", "v"), "K=v\n");
    assert_eq!(set_env("K=1\n# c\nK=2\n", "K", "v"), "K=v\n# c\nK=v\n");
    assert_eq!(set_env("KEY=1\n", "KE", "2"), "KEY=1\nKE=2\n");
    assert_eq!(set_env("A=1\n\nB=2\n", "A", ""), "A=\n\nB=2\n");
}

#[test]
fn set_env_then_read_back() {
    let out = set_env("X=1\nPOSTGRES_PASSWORD=old\nY=2\r\nPOSTGRES_PASSWORD=older", "POSTGRES_PASSWORD", "new");
    let assigned: Vec<&str> = out.lines().filter(|l| l.starts_with("POSTGRES_PASSWORD=")).collect();
    assert!(!assigned.is_empty());
    assert!(assigned.iter().all(|l| *l == "POSTGRES_PASSWORD=new"));
}

fn secrets() -> TenantSecrets {
    TenantSecrets {
        postgres_password: "pg".to_string(),
        jwt_secret: "jwt".to_string(),
        anon_key: "anon".to_string(),
        service_key: "svc".to_string(),
        dashboard_username: "supabase".to_string(),
        dashboard_password: "dash".to_string(),
        secret_key_base: "skb".to_string(),
        vault_enc_key: "vault".to_string(),
        pg_meta_crypto_key: "meta".to_string(),
        logflare_public: "lfpub".to_string(),
        logflare_private: "lfpriv".to_string(),
        s3_protocol_access_key_id: "s3id".to_string(),
        s3_protocol_access_key_secret: "s3secret".to_string(),
    }
}

#[test]
fn tenant_env_rendering() {
    let example = "POSTGRES_PASSWORD=your-super-secret\nSITE_URL=http://localhost:3000\nOTHER=1\n";
    let env = render_tenant_env(example, "abc", "supabase.localhost", &secrets());
    let lines: Vec<&str> = env.lines().collect();
    assert_eq!(lines[0], "POSTGRES_PASSWORD=pg");
    assert_eq!(lines[1], "SITE_URL=http://abc.supabase.localhost");
    assert_eq!(lines[2], "OTHER=1");
    assert!(lines.contains(&"JWT_SECRET=jwt"));
    assert!(lines.contains(&"API_EXTERNAL_URL=http://abc.supabase.localhost"));
    assert!(lines.contains(&"POOLER_TENANT_ID=abc"));
    assert!(lines.contains(&"REGION=local"));
    assert!(lines.contains(&"S3_PROTOCOL_ACCESS_KEY_SECRET=s3secret"));
    assert!(env.ends_with("S3_PROTOCOL_ACCESS_KEY_SECRET=s3secret\n\nSUPAHOST_TENANT=abc\n"));
    assert_eq!(lines.iter().filter(|l| l.starts_with("POSTGRES_PASSWORD=")).count(), 1);
}

#[test]
fn kong_config_patching() {
    let kong = "url: http://realtime-dev.supabase-realtime:4000/socket/\nname: realtime-dev\n";
    assert_eq!(
        patch_kong_config(kong, "realtime-tabc"),
        "url: http://realtime-tabc.supabase-realtime:4000/socket/\nname: realtime-tabc\n"
    );
    assert_eq!(repair_kong_config("already: realtime-tabc\n", "realtime-tabc"), "already: realtime-tabc\n");
    assert_eq!(repair_kong_config("x realtime-dev y", "r"), "x r y");
}

#[test]
fn traefik_route_for_tenant() {
    let y = tenant_traefik_route("abc", "supabase.localhost");
    assert_eq!(
        y,
        "http:\n  routers:\n    tenant-abc:\n      rule: Host(`abc.supabase.localhost`)\n      entryPoints:\n        - web\n      service: tenant-abc\n  services:\n    tenant-abc:\n      loadBalancer:\n        servers:\n          - url: http://tabc-supabase-kong:8000\n"
    );
    assert_eq!(tenant_traefik_route_file(TID), "tenant-3f2a1b9c12344abc8def0123456789ab.yaml");
    assert_eq!(traefik_dynamic_dir(None), "./infra/local/traefik/dynamic");
    assert_eq!(traefik_dynamic_dir(Some("/etc/traefik".to_string())), "/etc/traefik");
}

#[test]
fn random_secrets_have_their_shape() {
    let s = rand_string(40);
    assert_eq!(s.len(), 40);
    assert!(s.chars().all(|c| c.is_ascii_alphanumeric()));
    assert_eq!(rand_string(0), "");
    let h = rand_hex(64);
    assert_eq!(h.len(), 64);
    assert!(h.chars().all(|c| c.is_ascii_digit() || ('a'..='f').contains(&c)));
    assert_ne!(rand_string(32), rand_string(32));
}

fn decode_claims(token: &str, secret: &str) -> serde_json::Value {
    let data = jsonwebtoken::decode::<serde_json::Value>(
        token,
        &jsonwebtoken::DecodingKey::from_secret(secret.as_bytes()),
        &jsonwebtoken::Validation::new(jsonwebtoken::Algorithm::HS256),
    )
    .expect("token verifies");
    data.claims
}

#[test]
fn api_keys_are_signed_jwts() {
    let now = time::OffsetDateTime::now_utc().unix_timestamp();
    let token = match sign_jwt_at("jwt-secret", "anon", now) {
        Ok(t) => t,
        Err(_) => panic!("signing failed"),
    };
    assert_eq!(token.split('.').count(), 3);
    let claims = decode_claims(&token, "jwt-secret");
    assert_eq!(claims["role"], "anon");
    assert_eq!(claims["iss"], "supabase");
    assert_eq!(claims["iat"], now);
    assert_eq!(claims["exp"], now + 315_360_000);
    let other = match sign_jwt("jwt-secret", "service_role") {
        Ok(t) => t,
        Err(_) => panic!("signing failed"),
    };
    assert_eq!(decode_claims(&other, "jwt-secret")["role"], "service_role");
}

#[test]
fn generated_secrets() {
    let s = match generate_tenant_secrets("supabase".to_string()) {
        Ok(s) => s,
        Err(_) => panic!("generation failed"),
    };
    assert_eq!(s.postgres_password.len(), 40);
    assert_eq!(s.jwt_secret.len(), 64);
    assert_eq!(s.dashboard_username, "supabase");
    assert_eq!(s.dashboard_password.len(), 24);
    assert_eq!(s.secret_key_base.len(), 64);
    assert_eq!(s.vault_enc_key.len(), 32);
    assert_eq!(s.pg_meta_crypto_key.len(), 32);
    assert_eq!(s.logflare_public.len(), 48);
    assert_eq!(s.logflare_private.len(), 48);
    assert_eq!(s.s3_protocol_access_key_id.len(), 32);
    assert_eq!(s.s3_protocol_access_key_secret.len(), 64);
    assert_eq!(decode_claims(&s.anon_key, &s.jwt_secret)["role"], "anon");
    assert_eq!(decode_claims(&s.service_key, &s.jwt_secret)["role"], "service_role");
}

fn ystr(s: &str) -> Yaml {
    Yaml::Str(s.to_string())
}

fn map(entries: Vec<(&str, Yaml)>) -> Yaml {
    Yaml::Mapping(entries.into_iter().map(|(k, v)| (ystr(k), v)).collect())
}

fn get<'a>(y: &'a Yaml, k: &str) -> Option<&'a Yaml> {
    match y {
        Yaml::Mapping(m) => get_key(m, k),
        _ => None,
    }
}

fn text(y: Option<&Yaml>) -> Option<&str> {
    match y {
        Some(Yaml::Str(s)) => Some(s.as_str()),
        _ => None,
    }
}

fn texts(y: Option<&Yaml>) -> Vec<&str> {
    match y {
        Some(Yaml::Sequence(v)) => v.iter().map(|i| text(Some(i)).unwrap_or("?")).collect(),
        _ => Vec::new(),
    }
}

fn keys(y: &Yaml) -> Vec<&str> {
    match y {
        Yaml::Mapping(m) => m.iter().map(|(k, _)| text(Some(k)).unwrap_or("?")).collect(),
        _ => Vec::new(),
    }
}

fn upstream_compose() -> Yaml {
    map(vec![
        ("name", ystr("supabase")),
        (
            "services",
            map(vec![
                ("studio", map(vec![("container_name", ystr("supabase-studio")), ("image", ystr("studio"))])),
                (
                    "kong",
                    map(vec![
                        ("container_name", ystr("supabase-kong")),
                        ("ports", Yaml::Sequence(vec![ystr("8000:8000")])),
                        ("volumes", Yaml::Sequence(vec![ystr("./volumes/api/kong.yml:/home/kong/temp.yml:ro,z"), ystr("./volumes/x:/x:z")])),
                    ]),
                ),
                (
                    "realtime",
                    map(vec![
                        ("container_name", ystr("realtime-dev.supabase-realtime")),
                        (
                            "healthcheck",
                            map(vec![
                                ("test", Yaml::Sequence(vec![ystr("CMD"), ystr("curl -H 'Host: realtime-dev' http://localhost:4000")])),
                                ("interval", ystr("5s")),
                            ]),
                        ),
                    ]),
                ),
                ("rest", map(vec![("image", ystr("postgrest")), ("volumes", Yaml::Sequence(vec![ystr("./db:/db:Z")]))])),
                ("supavisor", map(vec![("container_name", ystr("supabase-pooler")), ("ports", Yaml::Sequence(vec![ystr("5432:5432")]))])),
            ]),
        ),
    ])
}

#[test]
fn compose_patched_for_tenant() {
    let rtid = realtime_tenant_id(TID);
    let doc = match patch_supabase_compose_for_tenant(upstream_compose(), TID, "supabase.localhost", "supahost", &rtid) {
        Ok(d) => d,
        Err(_) => panic!("patching failed"),
    };
    assert_eq!(text(get(&doc, "name")), Some("tenant-3f2a1b9c12344abc8def0123456789ab"));
    let edge = get(get(&doc, "networks").unwrap(), "edge").unwrap();
    assert!(matches!(get(edge, "external"), Some(Yaml::Bool(true))));
    assert_eq!(text(get(edge, "name")), Some("supahost"));
    let services = get(&doc, "services").unwrap();
    assert_eq!(keys(services), vec!["studio", "kong", "realtime", "rest", "supavisor"]);
    let studio = get(services, "studio").unwrap();
    assert_eq!(text(get(studio, "container_name")), Some("t3f2a1b9c12-supabase-studio"));
    let kong = get(services, "kong").unwrap();
    assert_eq!(text(get(kong, "container_name")), Some(tenant_kong_container_name(TID).as_str()));
    assert!(get(kong, "ports").is_none());
    assert_eq!(texts(get(kong, "volumes")), vec!["./volumes/api/kong.yml:/home/kong/temp.yml:ro,z", "./volumes/x:/x"]);
    assert_eq!(texts(get(kong, "networks")), vec!["default", "edge"]);
    let realtime = get(services, "realtime").unwrap();
    assert_eq!(text(get(realtime, "container_name")), Some("realtime-t3f2a1b9c12.supabase-realtime"));
    let hc = get(realtime, "healthcheck").unwrap();
    assert_eq!(texts(get(hc, "test")), vec!["CMD", "curl -H 'Host: realtime-t3f2a1b9c12' http://localhost:4000"]);
    assert_eq!(text(get(hc, "interval")), Some("5s"));
    let rest = get(services, "rest").unwrap();
    assert_eq!(text(get(rest, "container_name")), Some("t3f2a1b9c12-rest"));
    assert_eq!(texts(get(rest, "volumes")), vec!["./db:/db"]);
    let supavisor = get(services, "supavisor").unwrap();
    assert_eq!(text(get(supavisor, "container_name")), Some("t3f2a1b9c12-supabase-pooler"));
    assert!(get(supavisor, "ports").is_none());
}

#[test]
fn compose_errors() {
    assert!(matches!(
        patch_supabase_compose_for_tenant(ystr("x"), TID, "d", "n", "r"),
        Err(ComposeError::DocNotMap)
    ));
    assert!(matches!(
        patch_supabase_compose_for_tenant(map(vec![("name", ystr("x"))]), TID, "d", "n", "r"),
        Err(ComposeError::MissingServices)
    ));
    assert!(matches!(
        patch_supabase_compose_for_tenant(map(vec![("services", map(vec![("db", ystr("oops"))]))]), TID, "d", "n", "r"),
        Err(ComposeError::ServiceNotMap)
    ));
    assert!(matches!(
        patch_supabase_compose_for_tenant(map(vec![("networks", ystr("bad")), ("services", map(vec![]))]), TID, "d", "n", "r"),
        Err(ComposeError::NetworksNotMap)
    ));
    assert_eq!(ComposeError::DocNotMap.message(), "compose doc not a map");
    assert_eq!(ComposeError::NetworksNotMap.message(), "networks not a map");
    assert_eq!(ComposeError::MissingServices.message(), "compose missing services map");
    assert_eq!(ComposeError::ServiceNotMap.message(), "service entry not a map");
}

#[test]
fn yaml_edits() {
    let doc = set_yaml_string(map(vec![("name", ystr("a"))]), "name", "b");
    assert_eq!(text(get(&doc, "name")), Some("b"));
    let doc = set_yaml_string(ystr("scalar"), "name", "b");
    assert_eq!(text(Some(&doc)), Some("scalar"));
    let doc = match ensure_edge_network(map(vec![("networks", map(vec![("default", Yaml::Null)]))]), "net") {
        Ok(d) => d,
        Err(_) => panic!(),
    };
    assert_eq!(keys(get(&doc, "networks").unwrap()), vec!["default", "edge"]);
    let hc = map(vec![("test", Yaml::Sequence(vec![ystr("realtime-dev realtime-dev"), Yaml::Bool(false)]))]);
    let patched = patch_realtime_healthcheck(&hc, "rt");
    match get(&patched, "test") {
        Some(Yaml::Sequence(v)) => {
            assert_eq!(text(v.first()), Some("rt rt"));
            assert!(matches!(v[1], Yaml::Bool(false)));
        }
        _ => panic!(),
    }
}

fn job(backend: &str) -> ProvisionJob {
    ProvisionJob {
        tenant_id: "abc".to_string(),
        base_domain: "supabase.localhost".to_string(),
        public_web_base_url: "http://localhost:3000".to_string(),
        backend: backend.to_string(),
        email: Some("dev@example.com".to_string()),
        plan: Some("starter".to_string()),
        stripe_checkout_session_id: Some("cs_1".to_string()),
        stripe_customer_id: None,
        stripe_subscription_id: None,
    }
}

fn stored(status: &str, desired: &str, count: u8) -> TenantRecord {
    let mut r = empty_tenant_record("abc", "supabase.localhost", "http://localhost:3000");
    r.status = status.to_string();
    r.desired_state = desired.to_string();
    r.active_deployment_count = count;
    r
}

fn written(a: JobAction) -> TenantRecord {
    match a {
        JobAction::Write(r) => r,
        _ => panic!("expected a write"),
    }
}

#[test]
fn provisioning_a_fresh_tenant() {
    let j = job("docker");
    let (p, a) = ProvisionPhase::Start.step(&j, JobEvent::Started);
    assert!(matches!(a, JobAction::Load));
    let (p, a) = p.step(&j, JobEvent::Loaded(None));
    let first = written(a);
    assert_eq!(first.status, "provisioning");
    assert_eq!(first.desired_state, "active");
    assert_eq!(first.email.as_deref(), Some("dev@example.com"));
    assert_eq!(first.stripe_checkout_session_id.as_deref(), Some("cs_1"));
    let (p, a) = p.step(&j, JobEvent::Written);
    assert!(matches!(a, JobAction::CheckFreshness));
    let (p, a) = p.step(&j, JobEvent::Freshness(true));
    assert!(matches!(a, JobAction::GenerateSecrets));
    let (p, a) = p.step(&j, JobEvent::SecretsReady(secrets()));
    assert!(matches!(a, JobAction::StartStack(ref s) if s.anon_key == "anon"));
    let (p, a) = p.step(&j, JobEvent::StackReady);
    assert!(matches!(a, JobAction::Load));
    let (p, a) = p.step(&j, JobEvent::Loaded(Some(stored("provisioning", "active", 0))));
    let last = written(a);
    assert_eq!(last.status, "active");
    assert_eq!(last.active_deployment_count, 1);
    assert_eq!(last.anon_key.as_deref(), Some("anon"));
    assert_eq!(last.dashboard_password.as_deref(), Some("dash"));
    let (p, a) = p.step(&j, JobEvent::Written);
    assert!(matches!(p, ProvisionPhase::Finished));
    match a {
        JobAction::ReplyProvision(ack) => {
            assert_eq!(ack.tenant_id, "abc");
            assert_eq!(ack.status, "active");
            assert_eq!(ack.active_deployment_count, 1);
            assert_eq!(ack.console_url.as_deref(), Some("http://abc.supabase.localhost"));
        }
        _ => panic!("expected an answer"),
    }
}

#[test]
fn provisioning_honours_a_pause_that_came_in_meanwhile() {
    let j = job("docker");
    let (p, _) = ProvisionPhase::Start.step(&j, JobEvent::Started);
    let (p, _) = p.step(&j, JobEvent::Loaded(Some(stored("paused", "active", 0))));
    let (p, _) = p.step(&j, JobEvent::Written);
    let (p, a) = p.step(&j, JobEvent::Freshness(false));
    assert!(matches!(a, JobAction::ReconcileStack));
    let (p, _) = p.step(&j, JobEvent::StackReady);
    let (p, a) = p.step(&j, JobEvent::Loaded(Some(stored("provisioning", "paused", 0))));
    assert!(matches!(a, JobAction::StopStack));
    let (p, a) = p.step(&j, JobEvent::TornDown);
    let last = written(a);
    assert_eq!(last.status, "paused");
    assert_eq!(last.desired_state, "paused");
    assert_eq!(last.active_deployment_count, 0);
    let (_, a) = p.step(&j, JobEvent::Written);
    assert!(matches!(a, JobAction::ReplyProvision(ref ack) if ack.status == "paused"));

    let (p, _) = ProvisionPhase::Start.step(&j, JobEvent::Started);
    let (p, _) = p.step(&j, JobEvent::Loaded(None));
    let (p, _) = p.step(&j, JobEvent::Written);
    let (p, _) = p.step(&j, JobEvent::Freshness(false));
    let (p, _) = p.step(&j, JobEvent::StackReady);
    let (_, a) = p.step(&j, JobEvent::Loaded(Some(stored("deleting", "deleted", 0))));
    assert!(matches!(a, JobAction::RemoveStack));
}

#[test]
fn provisioning_leaves_deleted_and_active_tenants_alone() {
    let j = job("docker");
    let (p, _) = ProvisionPhase::Start.step(&j, JobEvent::Started);
    let (p, a) = p.step(&j, JobEvent::Loaded(Some(stored("deleted", "deleted", 0))));
    assert!(matches!(p, ProvisionPhase::Finished));
    assert!(matches!(a, JobAction::ReplyProvision(ref ack) if ack.status == "deleted" && ack.active_deployment_count == 0));
    let (p, _) = ProvisionPhase::Start.step(&j, JobEvent::Started);
    let (p, a) = p.step(&j, JobEvent::Loaded(Some(stored("active", "active", 1))));
    assert!(matches!(p, ProvisionPhase::Finished));
    assert!(matches!(a, JobAction::ReplyProvision(ref ack) if ack.status == "active" && ack.active_deployment_count == 1));
}

#[test]
fn provisioning_without_docker() {
    let j = job("none");
    let (p, _) = ProvisionPhase::Start.step(&j, JobEvent::Started);
    let (p, _) = p.step(&j, JobEvent::Loaded(None));
    let (p, _) = p.step(&j, JobEvent::Written);
    let (p, a) = p.step(&j, JobEvent::Freshness(true));
    assert!(matches!(a, JobAction::Load));
    let (_, a) = p.step(&j, JobEvent::Loaded(Some(stored("provisioning", "paused", 0))));
    let last = written(a);
    assert_eq!(last.status, "paused");
    let (p, a) = ProvisionPhase::Start.step(&j, JobEvent::Written);
    assert!(matches!(p, ProvisionPhase::Finished));
    assert!(matches!(a, JobAction::Abort));
}

fn teardown(kind: TeardownKind, backend: &str) -> TeardownJob {
    TeardownJob {
        tenant_id: "abc".to_string(),
        base_domain: "supabase.localhost".to_string(),
        public_web_base_url: "http://localhost:3000".to_string(),
        backend: backend.to_string(),
        kind,
    }
}

#[test]
fn pausing_and_deleting() {
    let j = teardown(TeardownKind::Pause("suspended".to_string()), "docker");
    let (p, a) = TeardownPhase::Start.step(&j, JobEvent::Started);
    assert!(matches!(a, JobAction::StopStack));
    let (p, a) = p.step(&j, JobEvent::TornDown);
    assert!(matches!(a, JobAction::Load));
    let (p, a) = p.step(&j, JobEvent::Loaded(Some(stored("active", "active", 1))));
    let r = written(a);
    assert_eq!(r.status, "suspended");
    assert_eq!(r.desired_state, "paused");
    assert_eq!(r.active_deployment_count, 0);
    let (p, a) = p.step(&j, JobEvent::Written);
    assert!(matches!(p, TeardownPhase::Finished));
    match a {
        JobAction::ReplyAction(ack) => {
            assert_eq!(ack.status, "suspended");
            assert_eq!(ack.desired_state, "paused");
            assert_eq!(ack.active_deployment_count, 0);
        }
        _ => panic!("expected an answer"),
    }
    let j = teardown(TeardownKind::Delete, "docker");
    let (_, a) = TeardownPhase::Start.step(&j, JobEvent::Started);
    assert!(matches!(a, JobAction::RemoveStack));
    let j = teardown(TeardownKind::Delete, "none");
    let (p, a) = TeardownPhase::Start.step(&j, JobEvent::Started);
    assert!(matches!(a, JobAction::Load));
    let (_, a) = p.step(&j, JobEvent::Loaded(None));
    let r = written(a);
    assert_eq!(r.status, "deleted");
    assert_eq!(r.desired_state, "deleted");
    assert_eq!(r.gateway_url.as_deref(), Some("http://abc.supabase.localhost"));
}

fn settings() -> ProvisionerSettings {
    ProvisionerSettings {
        base_domain: "supabase.localhost".to_string(),
        public_web_base_url: "http://localhost:3000".to_string(),
        backend: "docker".to_string(),
    }
}

#[test]
fn jobs_from_messages() {
    let s = settings();
    let evt = BillingActiveEvent {
        tenant_id: "abc".to_string(),
        stripe_customer_id: Some("cus".to_string()),
        stripe_subscription_id: Some("sub".to_string()),
        stripe_checkout_session_id: None,
        activated_at: Some(1),
    };
    let j = s.active_event_job(&evt);
    assert_eq!(j.tenant_id, "abc");
    assert_eq!(j.email, None);
    assert_eq!(j.stripe_subscription_id.as_deref(), Some("sub"));
    let c = s.canceled_event_job(&BillingCanceledEvent { tenant_id: "abc".to_string(), canceled_at: None });
    assert!(matches!(c.kind, TeardownKind::Pause(ref st) if st == "suspended"));
    let req = TenantRequest { tenant_id: "abc".to_string() };
    assert!(matches!(s.pause_request_job(&req).kind, TeardownKind::Pause(ref st) if st == "paused"));
    assert!(matches!(s.deprovision_request_job(&req).kind, TeardownKind::Pause(ref st) if st == "paused"));
    assert!(matches!(s.delete_request_job(&req).kind, TeardownKind::Delete));
    let p = s.provision_request_job(&ProvisionRequest {
        tenant_id: "abc".to_string(),
        email: Some("e".to_string()),
        plan: None,
    });
    assert_eq!(p.email.as_deref(), Some("e"));
    assert_eq!(p.stripe_checkout_session_id, None);
    let mut existing = stored("paused", "paused", 0);
    existing.email = Some("old@example.com".to_string());
    existing.plan = Some("pro".to_string());
    existing.stripe_customer_id = Some("cus_9".to_string());
    let r = s.resume_request_job(
        &ProvisionRequest { tenant_id: "abc".to_string(), email: Some("new@example.com".to_string()), plan: None },
        &Some(existing.duplicate()),
    );
    assert_eq!(r.email.as_deref(), Some("new@example.com"));
    assert_eq!(r.plan.as_deref(), Some("pro"));
    assert_eq!(r.stripe_customer_id.as_deref(), Some("cus_9"));
    let rc = s.reconcile_request_job(&req, &Some(existing));
    assert_eq!(rc.email.as_deref(), Some("old@example.com"));
    let none = s.reconcile_request_job(&req, &None);
    assert_eq!(none.email, None);
    assert_eq!(none.backend, "docker");
}

#[test]
fn set_env_last_write_wins() {
    for content in ["", "A=1\nK=old\nB=2\n", "K=1\nK=2", "A=1"] {
        let twice = set_env(&set_env(content, "K", "v1"), "K", "v2");
        assert_eq!(twice, set_env(content, "K", "v2"), "content {:?}", content);
        let same = set_env(&set_env(content, "K", "v"), "K", "v");
        assert_eq!(same, set_env(content, "K", "v"));
    }
}

#[test]
fn kong_container_name_example() {
    assert_eq!(tenant_kong_container_name("AB-12"), "tab12-supabase-kong");
}

#[test]
fn provisioning_answers_one_deployment_whatever_the_store_holds() {
    let j = job("docker");
    let (p, _) = ProvisionPhase::Start.step(&j, JobEvent::Started);
    let (p, a) = p.step(&j, JobEvent::Loaded(Some(stored("active", "active", 5))));
    assert_eq!(written(a).active_deployment_count, 5);
    let (p, _) = p.step(&j, JobEvent::Written);
    let (p, _) = p.step(&j, JobEvent::Freshness(false));
    let (p, _) = p.step(&j, JobEvent::StackReady);
    let (p, a) = p.step(&j, JobEvent::Loaded(Some(stored("active", "active", 5))));
    let last = written(a);
    assert_eq!(last.active_deployment_count, 1);
    assert_eq!(last.status, "active");
    let (_, a) = p.step(&j, JobEvent::Written);
    assert!(matches!(a, JobAction::ReplyProvision(ref ack) if ack.active_deployment_count == 1 && ack.status == "active"));
}

#[test]
fn every_env_setting_reads_back() {
    let example = "POSTGRES_PASSWORD=x\nJWT_SECRET=y\nJWT_SECRET=z\nOTHER=1\r\n";
    let env = render_tenant_env(example, "abc", "supabase.localhost", &secrets());
    let expected = [
        ("POSTGRES_PASSWORD", "pg"), ("JWT_SECRET", "jwt"), ("ANON_KEY", "anon"), ("SERVICE_ROLE_KEY", "svc"),
        ("DASHBOARD_USERNAME", "supabase"), ("DASHBOARD_PASSWORD", "dash"), ("SECRET_KEY_BASE", "skb"),
        ("VAULT_ENC_KEY", "vault"), ("PG_META_CRYPTO_KEY", "meta"), ("LOGFLARE_PUBLIC_ACCESS_TOKEN", "lfpub"),
        ("LOGFLARE_PRIVATE_ACCESS_TOKEN", "lfpriv"), ("SITE_URL", "http://abc.supabase.localhost"),
        ("API_EXTERNAL_URL", "http://abc.supabase.localhost"), ("SUPABASE_PUBLIC_URL", "http://abc.supabase.localhost"),
        ("POOLER_TENANT_ID", "abc"), ("STORAGE_TENANT_ID", "abc"), ("GLOBAL_S3_BUCKET", "abc"), ("REGION", "local"),
        ("S3_PROTOCOL_ACCESS_KEY_ID", "s3id"), ("S3_PROTOCOL_ACCESS_KEY_SECRET", "s3secret"),
    ];
    for (k, v) in expected {
        let prefix = format!("{k}=");
        let assigned: Vec<&str> = env.lines().filter(|l| l.starts_with(&prefix)).collect();
        assert!(!assigned.is_empty(), "{k} missing");
        assert!(assigned.iter().all(|l| *l == format!("{k}={v}")), "{k} has another value");
    }
}
