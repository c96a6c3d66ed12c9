//! The component's configuration values and their defaults.

use vstd::prelude::*;
use crate::text::{concat2, copy_str};

verus! {

/// The configured value, or `default` when the host has none.
pub open spec fn configured_or(configured: Option<String>, default: Seq<char>) -> Seq<char> {
    match configured {
        Some(v) => v@,
        None => default,
    }
}

fn or_default(configured: Option<String>, default: &str) -> (v: String)
    ensures
        v@ == configured_or(configured, default@),
{
    match configured {
        Some(v) => v,
        None => copy_str(default),
    }
}

/// The prefix of tenant keys in the store (`TENANT_KEY_PREFIX`, default `tenant:`).
pub fn tenant_key_prefix(configured: Option<String>) -> (v: String)
    ensures
        v@ == configured_or(configured, "tenant:"@),
{
    or_default(configured, "tenant:")
}

/// The key a tenant's record is stored under: the prefix followed by the tenant id.
pub fn tenant_key(prefix: &str, tenant_id: &str) -> (key: String)
    ensures
        key@ == prefix@ + tenant_id@,
{
    concat2(prefix, tenant_id)
}

/// The domain tenant hosts live under (`PUBLIC_TENANT_BASE_DOMAIN`, default
/// `supabase.localhost`).
pub fn public_base_domain(configured: Option<String>) -> (v: String)
    ensures
        v@ == configured_or(configured, "supabase.localhost"@),
{
    or_default(configured, "supabase.localhost")
}

/// The subject of checkout requests to billing (`BILLING_REQUEST_SUBJECT`, default
/// `billing.create_checkout`).
pub fn billing_subject(configured: Option<String>) -> (v: String)
    ensures
        v@ == configured_or(configured, "billing.create_checkout"@),
{
    or_default(configured, "billing.create_checkout")
}

/// How new tenants are billed (`BILLING_MODE`): `stripe` goes through checkout, anything
/// else provisions directly; the default is `direct`.
pub fn billing_mode(configured: Option<String>) -> (v: String)
    ensures
        v@ == configured_or(configured, "direct"@),
{
    or_default(configured, "direct")
}

/// The subject of provisioning requests (`PROVISION_REQUEST_SUBJECT`, default
/// `tenant.provision`).
pub fn provision_subject(configured: Option<String>) -> (v: String)
    ensures
        v@ == configured_or(configured, "tenant.provision"@),
{
    or_default(configured, "tenant.provision")
}

/// The subject of deprovisioning requests (`DEPROVISION_REQUEST_SUBJECT`, default
/// `tenant.deprovision`).
pub fn deprovision_subject(configured: Option<String>) -> (v: String)
    ensures
        v@ == configured_or(configured, "tenant.deprovision"@),
{
    or_default(configured, "tenant.deprovision")
}

/// The subject of reconcile requests (`RECONCILE_REQUEST_SUBJECT`, default
/// `tenant.reconcile`).
pub fn reconcile_subject(configured: Option<String>) -> (v: String)
    ensures
        v@ == configured_or(configured, "tenant.reconcile"@),
{
    or_default(configured, "tenant.reconcile")
}

/// The admin token (`PLATFORM_ADMIN_TOKEN`); without one, admin routes are open.
pub fn admin_token(configured: Option<String>) -> (v: Option<String>)
    ensures
        v == configured,
{
    configured
}

} // verus!
