//! The files laid out for a tenant's stack: its `.env`, its Kong configuration and its
//! Traefik route.

use vstd::prelude::*;
use crate::text::{concat2, contains, contains_str, copy_str, replace_all, replace_str, lemma_replace_absent};
use crate::provisioner::env::{
    law_set_env_then_read, lemma_set_env_keeps_other, no_cr, no_equals, no_newline, reads_back, set_env,
    set_env_of,
};
use crate::provisioner::jobs::{TenantSecrets, TenantSecretsView};
use crate::provisioner::naming::{
    gateway_url_of, law_tenant_names, prefix_of, slug_of, tenant_gateway_url, tenant_kong_container_name,
    tenant_slug,
};

verus! {

/// `content` with each `(key, value)` of `pairs` set in turn.
pub open spec fn set_env_all(content: Seq<char>, pairs: Seq<(Seq<char>, Seq<char>)>) -> Seq<char>
    decreases pairs.len(),
{
    if pairs.len() == 0 {
        content
    } else {
        set_env_of(set_env_all(content, pairs.drop_last()), pairs.last().0, pairs.last().1)
    }
}

/// Whether the settings can be written one after the other and all read back: keys
/// without line breaks or `=`, no key twice, values without line breaks that do not end in
/// a carriage return.
pub open spec fn settings_ok(pairs: Seq<(Seq<char>, Seq<char>)>) -> bool {
    &&& forall|i: int| 0 <= i < pairs.len() ==> no_newline(#[trigger] pairs[i].0) && no_equals(pairs[i].0)
        && no_newline(pairs[i].1) && !(pairs[i].1.len() > 0 && pairs[i].1.last() == '\r')
    &&& forall|i: int, j: int| 0 <= i < j < pairs.len() ==> #[trigger] pairs[i].0 != #[trigger] pairs[j].0
}

/// Every setting written into an `.env` reads back: after all the settings are applied,
/// each key is assigned, and every line that assigns it assigns its value.
pub proof fn law_env_settings_read_back(content: Seq<char>, pairs: Seq<(Seq<char>, Seq<char>)>)
    requires
        settings_ok(pairs),
    ensures
        forall|i: int| 0 <= i < pairs.len() ==> #[trigger] reads_back(set_env_all(content, pairs), pairs[i].0, pairs[i].1),
    decreases pairs.len(),
{
    if pairs.len() > 0 {
        let prev = pairs.drop_last();
        assert(settings_ok(prev)) by {
            assert forall|i: int| 0 <= i < prev.len() implies #[trigger] prev[i] == pairs[i] by {}
        }
        law_env_settings_read_back(content, prev);
        let t = set_env_all(content, prev);
        let (k, v) = pairs.last();
        let n = pairs.len() - 1;
        assert(pairs[n] == pairs.last());
        law_set_env_then_read(t, k, v);
        assert(reads_back(set_env_of(t, k, v), k, v));
        assert forall|i: int| 0 <= i < pairs.len() implies #[trigger] reads_back(set_env_all(content, pairs), pairs[i].0, pairs[i].1) by {
            if i < n {
                assert(prev[i] == pairs[i]);
                assert(reads_back(t, prev[i].0, prev[i].1));
                lemma_set_env_keeps_other(t, pairs[i].0, pairs[i].1, k, v);
            }
        }
    }
}

/// The settings of a tenant's `.env`, in the order they are applied.
pub open spec fn tenant_env_pairs(tenant_id: Seq<char>, base_domain: Seq<char>, s: TenantSecretsView) -> Seq<(Seq<char>, Seq<char>)> {
    let public_url = gateway_url_of(base_domain, tenant_id);
    let slug = slug_of(tenant_id);
    seq![
        ("POSTGRES_PASSWORD"@, s.postgres_password),
        ("JWT_SECRET"@, s.jwt_secret),
        ("ANON_KEY"@, s.anon_key),
        ("SERVICE_ROLE_KEY"@, s.service_key),
        ("DASHBOARD_USERNAME"@, s.dashboard_username),
        ("DASHBOARD_PASSWORD"@, s.dashboard_password),
        ("SECRET_KEY_BASE"@, s.secret_key_base),
        ("VAULT_ENC_KEY"@, s.vault_enc_key),
        ("PG_META_CRYPTO_KEY"@, s.pg_meta_crypto_key),
        ("LOGFLARE_PUBLIC_ACCESS_TOKEN"@, s.logflare_public),
        ("LOGFLARE_PRIVATE_ACCESS_TOKEN"@, s.logflare_private),
        ("SITE_URL"@, public_url),
        ("API_EXTERNAL_URL"@, public_url),
        ("SUPABASE_PUBLIC_URL"@, public_url),
        ("POOLER_TENANT_ID"@, slug),
        ("STORAGE_TENANT_ID"@, slug),
        ("GLOBAL_S3_BUCKET"@, slug),
        ("REGION"@, "local"@),
        ("S3_PROTOCOL_ACCESS_KEY_ID"@, s.s3_protocol_access_key_id),
        ("S3_PROTOCOL_ACCESS_KEY_SECRET"@, s.s3_protocol_access_key_secret),
    ]
}

/// Whether a value fits on one `.env` line: no line break and no carriage return.
pub open spec fn one_line(v: Seq<char>) -> bool {
    no_newline(v) && no_cr(v)
}

/// A tenant's `.env` holds its own settings: each secret under its own key (the anon key
/// as `ANON_KEY`, the service-role key as `SERVICE_ROLE_KEY`, and so on), the tenant's
/// gateway URL as its public URLs, and its slug as its storage, pooler and bucket name.
/// Each reads back from the settings applied to the upstream example, for values that fit
/// on one line.
pub proof fn law_tenant_env_settings(env_example: Seq<char>, tenant_id: Seq<char>, base_domain: Seq<char>, s: TenantSecretsView)
    requires
        one_line(tenant_id),
        one_line(base_domain),
        one_line(s.postgres_password),
        one_line(s.jwt_secret),
        one_line(s.anon_key),
        one_line(s.service_key),
        one_line(s.dashboard_username),
        one_line(s.dashboard_password),
        one_line(s.secret_key_base),
        one_line(s.vault_enc_key),
        one_line(s.pg_meta_crypto_key),
        one_line(s.logflare_public),
        one_line(s.logflare_private),
        one_line(s.s3_protocol_access_key_id),
        one_line(s.s3_protocol_access_key_secret),
    ensures
        ({
            let env = set_env_all(env_example, tenant_env_pairs(tenant_id, base_domain, s));
            let url = gateway_url_of(base_domain, tenant_id);
            let slug = slug_of(tenant_id);
            &&& reads_back(env, "POSTGRES_PASSWORD"@, s.postgres_password)
            &&& reads_back(env, "JWT_SECRET"@, s.jwt_secret)
            &&& reads_back(env, "ANON_KEY"@, s.anon_key)
            &&& reads_back(env, "SERVICE_ROLE_KEY"@, s.service_key)
            &&& reads_back(env, "DASHBOARD_USERNAME"@, s.dashboard_username)
            &&& reads_back(env, "DASHBOARD_PASSWORD"@, s.dashboard_password)
            &&& reads_back(env, "SECRET_KEY_BASE"@, s.secret_key_base)
            &&& reads_back(env, "VAULT_ENC_KEY"@, s.vault_enc_key)
            &&& reads_back(env, "PG_META_CRYPTO_KEY"@, s.pg_meta_crypto_key)
            &&& reads_back(env, "LOGFLARE_PUBLIC_ACCESS_TOKEN"@, s.logflare_public)
            &&& reads_back(env, "LOGFLARE_PRIVATE_ACCESS_TOKEN"@, s.logflare_private)
            &&& reads_back(env, "SITE_URL"@, url)
            &&& reads_back(env, "API_EXTERNAL_URL"@, url)
            &&& reads_back(env, "SUPABASE_PUBLIC_URL"@, url)
            &&& reads_back(env, "POOLER_TENANT_ID"@, slug)
            &&& reads_back(env, "STORAGE_TENANT_ID"@, slug)
            &&& reads_back(env, "GLOBAL_S3_BUCKET"@, slug)
            &&& reads_back(env, "REGION"@, "local"@)
            &&& reads_back(env, "S3_PROTOCOL_ACCESS_KEY_ID"@, s.s3_protocol_access_key_id)
            &&& reads_back(env, "S3_PROTOCOL_ACCESS_KEY_SECRET"@, s.s3_protocol_access_key_secret)
        }),
{
    let pairs = tenant_env_pairs(tenant_id, base_domain, s);
    let url = gateway_url_of(base_domain, tenant_id);
    reveal_strlit("http://");
    reveal_strlit(".");
    reveal_strlit("local");
    reveal_strlit("POSTGRES_PASSWORD");
    reveal_strlit("JWT_SECRET");
    reveal_strlit("ANON_KEY");
    reveal_strlit("SERVICE_ROLE_KEY");
    reveal_strlit("DASHBOARD_USERNAME");
    reveal_strlit("DASHBOARD_PASSWORD");
    reveal_strlit("SECRET_KEY_BASE");
    reveal_strlit("VAULT_ENC_KEY");
    reveal_strlit("PG_META_CRYPTO_KEY");
    reveal_strlit("LOGFLARE_PUBLIC_ACCESS_TOKEN");
    reveal_strlit("LOGFLARE_PRIVATE_ACCESS_TOKEN");
    reveal_strlit("SITE_URL");
    reveal_strlit("API_EXTERNAL_URL");
    reveal_strlit("SUPABASE_PUBLIC_URL");
    reveal_strlit("POOLER_TENANT_ID");
    reveal_strlit("STORAGE_TENANT_ID");
    reveal_strlit("GLOBAL_S3_BUCKET");
    reveal_strlit("REGION");
    reveal_strlit("S3_PROTOCOL_ACCESS_KEY_ID");
    reveal_strlit("S3_PROTOCOL_ACCESS_KEY_SECRET");
    law_tenant_names(tenant_id);
    assert(one_line(slug_of(tenant_id)));
    assert(one_line(url)) by {
        assert forall|j: int| 0 <= j < url.len() implies url[j] != '\n' && url[j] != '\r' by {
            if j < 7 {
            } else if j < 7 + tenant_id.len() {
                assert(url[j] == tenant_id[j - 7]);
            } else if j == 7 + tenant_id.len() {
            } else {
                assert(url[j] == base_domain[j - 8 - tenant_id.len()]);
            }
        }
    }
    assert forall|i: int| 0 <= i < pairs.len() implies one_line(#[trigger] pairs[i].1) && no_newline(pairs[i].0)
        && no_equals(pairs[i].0) by {
        assert(one_line("local"@));
    }
    assert forall|i: int, j: int| 0 <= i < j < pairs.len() implies #[trigger] pairs[i].0 != #[trigger] pairs[j].0 by {
        if pairs[i].0 == pairs[j].0 {
            assert(pairs[i].0.len() == pairs[j].0.len());
            assert(pairs[i].0[0] == pairs[j].0[0]);
            assert(pairs[i].0.len() > 10 ==> pairs[i].0[10] == pairs[j].0[10]);
        }
    }
    assert(settings_ok(pairs));
    law_env_settings_read_back(env_example, pairs);
    let env = set_env_all(env_example, pairs);
    assert(reads_back(env, pairs[0].0, pairs[0].1));
    assert(reads_back(env, pairs[1].0, pairs[1].1));
    assert(reads_back(env, pairs[2].0, pairs[2].1));
    assert(reads_back(env, pairs[3].0, pairs[3].1));
    assert(reads_back(env, pairs[4].0, pairs[4].1));
    assert(reads_back(env, pairs[5].0, pairs[5].1));
    assert(reads_back(env, pairs[6].0, pairs[6].1));
    assert(reads_back(env, pairs[7].0, pairs[7].1));
    assert(reads_back(env, pairs[8].0, pairs[8].1));
    assert(reads_back(env, pairs[9].0, pairs[9].1));
    assert(reads_back(env, pairs[10].0, pairs[10].1));
    assert(reads_back(env, pairs[11].0, pairs[11].1));
    assert(reads_back(env, pairs[12].0, pairs[12].1));
    assert(reads_back(env, pairs[13].0, pairs[13].1));
    assert(reads_back(env, pairs[14].0, pairs[14].1));
    assert(reads_back(env, pairs[15].0, pairs[15].1));
    assert(reads_back(env, pairs[16].0, pairs[16].1));
    assert(reads_back(env, pairs[17].0, pairs[17].1));
    assert(reads_back(env, pairs[18].0, pairs[18].1));
    assert(reads_back(env, pairs[19].0, pairs[19].1));
}

/// A tenant's `.env`: the upstream example with the tenant's settings applied, and a line
/// naming the tenant appended after a blank line.
pub open spec fn tenant_env_of(env_example: Seq<char>, tenant_id: Seq<char>, base_domain: Seq<char>, s: TenantSecretsView) -> Seq<char> {
    set_env_all(env_example, tenant_env_pairs(tenant_id, base_domain, s)) + "\nSUPAHOST_TENANT="@
        + tenant_id + "\n"@
}

/// Renders a tenant's `.env` (see `tenant_env_of`).
pub fn render_tenant_env(env_example: &str, tenant_id: &str, base_domain: &str, secrets: &TenantSecrets) -> (env:
    String)
    ensures
        env@ == tenant_env_of(env_example@, tenant_id@, base_domain@, secrets@),
{
    let public_url = tenant_gateway_url(base_domain, tenant_id);
    let slug = tenant_slug(tenant_id);
    let mut pairs: Vec<(&str, &str)> = Vec::new();
    pairs.push(("POSTGRES_PASSWORD", secrets.postgres_password.as_str()));
    pairs.push(("JWT_SECRET", secrets.jwt_secret.as_str()));
    pairs.push(("ANON_KEY", secrets.anon_key.as_str()));
    pairs.push(("SERVICE_ROLE_KEY", secrets.service_key.as_str()));
    pairs.push(("DASHBOARD_USERNAME", secrets.dashboard_username.as_str()));
    pairs.push(("DASHBOARD_PASSWORD", secrets.dashboard_password.as_str()));
    pairs.push(("SECRET_KEY_BASE", secrets.secret_key_base.as_str()));
    pairs.push(("VAULT_ENC_KEY", secrets.vault_enc_key.as_str()));
    pairs.push(("PG_META_CRYPTO_KEY", secrets.pg_meta_crypto_key.as_str()));
    pairs.push(("LOGFLARE_PUBLIC_ACCESS_TOKEN", secrets.logflare_public.as_str()));
    pairs.push(("LOGFLARE_PRIVATE_ACCESS_TOKEN", secrets.logflare_private.as_str()));
    pairs.push(("SITE_URL", public_url.as_str()));
    pairs.push(("API_EXTERNAL_URL", public_url.as_str()));
    pairs.push(("SUPABASE_PUBLIC_URL", public_url.as_str()));
    pairs.push(("POOLER_TENANT_ID", slug.as_str()));
    pairs.push(("STORAGE_TENANT_ID", slug.as_str()));
    pairs.push(("GLOBAL_S3_BUCKET", slug.as_str()));
    pairs.push(("REGION", "local"));
    pairs.push(("S3_PROTOCOL_ACCESS_KEY_ID", secrets.s3_protocol_access_key_id.as_str()));
    pairs.push(("S3_PROTOCOL_ACCESS_KEY_SECRET", secrets.s3_protocol_access_key_secret.as_str()));
    let ghost expected = tenant_env_pairs(tenant_id@, base_domain@, secrets@);
    assert(pairs@.len() == expected.len());
    assert forall|k: int| 0 <= k < pairs@.len() implies (#[trigger] pairs@[k]).0@ == expected[k].0
        && pairs@[k].1@ == expected[k].1 by {}
    let mut env = copy_str(env_example);
    let mut i: usize = 0;
    assert(expected.take(0) =~= Seq::<(Seq<char>, Seq<char>)>::empty());
    while i < pairs.len()
        invariant
            i <= pairs@.len(),
            pairs@.len() == expected.len(),
            forall|k: int| 0 <= k < pairs@.len() ==> (#[trigger] pairs@[k]).0@ == expected[k].0
                && pairs@[k].1@ == expected[k].1,
            env@ == set_env_all(env_example@, expected.take(i as int)),
        decreases pairs@.len() - i,
    {
        let (k, v) = pairs[i];
        env = set_env(env.as_str(), k, v);
        proof {
            assert(expected.take(i + 1).drop_last() =~= expected.take(i as int));
        }
        i = i + 1;
    }
    assert(expected.take(i as int) =~= expected);
    env.append("\nSUPAHOST_TENANT=");
    env.append(tenant_id);
    env.append("\n");
    env
}

/// The upstream Kong configuration with the Realtime tenant id `realtime-dev` replaced by
/// the tenant's own.
pub fn patch_kong_config(kong: &str, realtime_tenant_id: &str) -> (patched: String)
    ensures
        patched@ == replace_all(kong@, "realtime-dev"@, realtime_tenant_id@),
{
    proof {
        reveal_strlit("realtime-dev");
    }
    replace_str(kong, "realtime-dev", realtime_tenant_id)
}

/// Repairs an existing tenant's Kong configuration: any remaining `realtime-dev` is
/// replaced by the tenant's Realtime id; a configuration without one is kept as it is.
pub fn repair_kong_config(kong: &str, realtime_tenant_id: &str) -> (patched: String)
    ensures
        patched@ == replace_all(kong@, "realtime-dev"@, realtime_tenant_id@),
        !contains(kong@, "realtime-dev"@) ==> patched@ == kong@,
{
    proof {
        reveal_strlit("realtime-dev");
    }
    if contains_str(kong, "realtime-dev") {
        replace_str(kong, "realtime-dev", realtime_tenant_id)
    } else {
        proof {
            lemma_replace_absent(kong@, "realtime-dev"@, realtime_tenant_id@);
        }
        copy_str(kong)
    }
}

/// The name of the Traefik router and service of a tenant: `tenant-{slug}`.
pub open spec fn router_name_of(tenant_id: Seq<char>) -> Seq<char> {
    "tenant-"@ + slug_of(tenant_id)
}

/// The Traefik dynamic configuration that routes the tenant's host to its Kong gateway.
pub open spec fn traefik_route_of(tenant_id: Seq<char>, base_domain: Seq<char>) -> Seq<char> {
    let router = router_name_of(tenant_id);
    let host = tenant_id + "."@ + base_domain;
    let service_url = "http://"@ + prefix_of(tenant_id) + "-supabase-kong"@ + ":8000"@;
    "http:\n  routers:\n    "@ + router + ":\n      rule: Host(`"@ + host
        + "`)\n      entryPoints:\n        - web\n      service: "@ + router
        + "\n  services:\n    "@ + router
        + ":\n      loadBalancer:\n        servers:\n          - url: "@ + service_url + "\n"@
}

/// The Traefik route of a tenant (see `traefik_route_of`).
pub fn tenant_traefik_route(tenant_id: &str, base_domain: &str) -> (yaml: String)
    ensures
        yaml@ == traefik_route_of(tenant_id@, base_domain@),
{
    let slug = tenant_slug(tenant_id);
    let router = concat2("tenant-", slug.as_str());
    let kong = tenant_kong_container_name(tenant_id);
    let mut y = copy_str("http:\n  routers:\n    ");
    y.append(router.as_str());
    y.append(":\n      rule: Host(`");
    y.append(tenant_id);
    y.append(".");
    y.append(base_domain);
    y.append("`)\n      entryPoints:\n        - web\n      service: ");
    y.append(router.as_str());
    y.append("\n  services:\n    ");
    y.append(router.as_str());
    y.append(":\n      loadBalancer:\n        servers:\n          - url: ");
    y.append("http://");
    y.append(kong.as_str());
    y.append(":8000");
    y.append("\n");
    assert(y@ =~= traefik_route_of(tenant_id@, base_domain@));
    y
}

/// The file that holds a tenant's Traefik route: `tenant-{slug}.yaml`.
pub fn tenant_traefik_route_file(tenant_id: &str) -> (name: String)
    ensures
        name@ == router_name_of(tenant_id@) + ".yaml"@,
{
    let slug = tenant_slug(tenant_id);
    let router = concat2("tenant-", slug.as_str());
    router.concat(".yaml")
}

/// The directory Traefik reads dynamic configuration from: the configured one, or
/// `./infra/local/traefik/dynamic`.
pub fn traefik_dynamic_dir(configured: Option<String>) -> (dir: String)
    ensures
        dir@ == match configured {
            Some(d) => d@,
            None => "./infra/local/traefik/dynamic"@,
        },
{
    match configured {
        Some(d) => d,
        None => copy_str("./infra/local/traefik/dynamic"),
    }
}

} // verus!
