//! The tenant record as the provisioner stores it.

use vstd::prelude::*;
use crate::text::{copy_opt, copy_str, opt_view};
use crate::provisioner::naming::{
    gateway_url_of, tenant_console_url, tenant_gateway_url, trimmed_domain,
};

verus! {

/// A tenant's record in the store.
pub struct TenantRecord {
    pub tenant_id: String,
    pub email: Option<String>,
    pub plan: Option<String>,
    pub status: String,
    pub desired_state: String,
    pub deployment_mode: String,
    pub active_deployment_count: u8,
    pub stripe_checkout_session_id: Option<String>,
    pub stripe_customer_id: Option<String>,
    pub stripe_subscription_id: Option<String>,
    pub api_url: Option<String>,
    pub gateway_url: Option<String>,
    pub console_url: Option<String>,
    pub anon_key: Option<String>,
    pub service_key: Option<String>,
    pub dashboard_username: Option<String>,
    pub dashboard_password: Option<String>,
}

/// The mathematical value of a `TenantRecord`.
pub struct TenantRecordView {
    pub tenant_id: Seq<char>,
    pub email: Option<Seq<char>>,
    pub plan: Option<Seq<char>>,
    pub status: Seq<char>,
    pub desired_state: Seq<char>,
    pub deployment_mode: Seq<char>,
    pub active_deployment_count: u8,
    pub stripe_checkout_session_id: Option<Seq<char>>,
    pub stripe_customer_id: Option<Seq<char>>,
    pub stripe_subscription_id: Option<Seq<char>>,
    pub api_url: Option<Seq<char>>,
    pub gateway_url: Option<Seq<char>>,
    pub console_url: Option<Seq<char>>,
    pub anon_key: Option<Seq<char>>,
    pub service_key: Option<Seq<char>>,
    pub dashboard_username: Option<Seq<char>>,
    pub dashboard_password: Option<Seq<char>>,
}

impl View for TenantRecord {
    type V = TenantRecordView;

    open spec fn view(&self) -> TenantRecordView {
        TenantRecordView {
            tenant_id: self.tenant_id@,
            email: opt_view(self.email),
            plan: opt_view(self.plan),
            status: self.status@,
            desired_state: self.desired_state@,
            deployment_mode: self.deployment_mode@,
            active_deployment_count: self.active_deployment_count,
            stripe_checkout_session_id: opt_view(self.stripe_checkout_session_id),
            stripe_customer_id: opt_view(self.stripe_customer_id),
            stripe_subscription_id: opt_view(self.stripe_subscription_id),
            api_url: opt_view(self.api_url),
            gateway_url: opt_view(self.gateway_url),
            console_url: opt_view(self.console_url),
            anon_key: opt_view(self.anon_key),
            service_key: opt_view(self.service_key),
            dashboard_username: opt_view(self.dashboard_username),
            dashboard_password: opt_view(self.dashboard_password),
        }
    }
}

impl TenantRecord {
    /// A field-by-field copy of the record.
    pub fn duplicate(&self) -> (r: TenantRecord)
        ensures
            r@ == self@,
    {
        TenantRecord {
            tenant_id: copy_str(self.tenant_id.as_str()),
            email: copy_opt(&self.email),
            plan: copy_opt(&self.plan),
            status: copy_str(self.status.as_str()),
            desired_state: copy_str(self.desired_state.as_str()),
            deployment_mode: copy_str(self.deployment_mode.as_str()),
            active_deployment_count: self.active_deployment_count,
            stripe_checkout_session_id: copy_opt(&self.stripe_checkout_session_id),
            stripe_customer_id: copy_opt(&self.stripe_customer_id),
            stripe_subscription_id: copy_opt(&self.stripe_subscription_id),
            api_url: copy_opt(&self.api_url),
            gateway_url: copy_opt(&self.gateway_url),
            console_url: copy_opt(&self.console_url),
            anon_key: copy_opt(&self.anon_key),
            service_key: copy_opt(&self.service_key),
            dashboard_username: copy_opt(&self.dashboard_username),
            dashboard_password: copy_opt(&self.dashboard_password),
        }
    }
}

/// The record of a tenant that the store does not know yet.
pub open spec fn empty_record_of(tenant_id: Seq<char>, base_domain: Seq<char>) -> TenantRecordView {
    TenantRecordView {
        tenant_id: tenant_id,
        email: None,
        plan: None,
        status: "unknown"@,
        desired_state: "active"@,
        deployment_mode: "single"@,
        active_deployment_count: 0,
        stripe_checkout_session_id: None,
        stripe_customer_id: None,
        stripe_subscription_id: None,
        api_url: Some(gateway_url_of(base_domain, tenant_id)),
        gateway_url: Some(gateway_url_of(base_domain, tenant_id)),
        console_url: Some(gateway_url_of(trimmed_domain(base_domain), tenant_id)),
        anon_key: None,
        service_key: None,
        dashboard_username: None,
        dashboard_password: None,
    }
}

/// A fresh record for `tenant_id`: status `unknown`, desired state `active`, a single
/// deployment slot with nothing running, and the tenant's gateway and console URLs.
/// (`public_web_base_url` plays no part in it.)
pub fn empty_tenant_record(tenant_id: &str, base_domain: &str, public_web_base_url: &str) -> (r:
    TenantRecord)
    ensures
        r@ == empty_record_of(tenant_id@, base_domain@),
{
    let gateway_url = tenant_gateway_url(base_domain, tenant_id);
    let console_url = tenant_console_url(base_domain, tenant_id);
    TenantRecord {
        tenant_id: copy_str(tenant_id),
        email: None,
        plan: None,
        status: copy_str("unknown"),
        desired_state: copy_str("active"),
        deployment_mode: copy_str("single"),
        active_deployment_count: 0,
        stripe_checkout_session_id: None,
        stripe_customer_id: None,
        stripe_subscription_id: None,
        api_url: Some(copy_str(gateway_url.as_str())),
        gateway_url: Some(gateway_url),
        console_url: Some(console_url),
        anon_key: None,
        service_key: None,
        dashboard_username: None,
        dashboard_password: None,
    }
}

} // verus!
