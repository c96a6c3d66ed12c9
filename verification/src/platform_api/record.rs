//! The tenant record as the platform API stores it.

use vstd::prelude::*;
use crate::text::{copy_opt, copy_str, opt_view};

verus! {

/// A tenant's record in the store.
pub struct TenantRecord {
    pub tenant_id: String,
    pub email: String,
    pub plan: String,
    pub status: String,
    pub desired_state: String,
    pub deployment_mode: String,
    pub active_deployment_count: u8,
    pub stripe_checkout_session_id: Option<String>,
    pub stripe_customer_id: Option<String>,
    pub stripe_subscription_id: Option<String>,
    pub api_url: Option<String>,
    pub gateway_url: Option<String>,
    pub console_url: Option<String>,
    pub anon_key: Option<String>,
    pub service_key: Option<String>,
    pub dashboard_username: Option<String>,
    pub dashboard_password: Option<String>,
}

/// The mathematical value of a `TenantRecord`.
pub struct TenantRecordView {
    pub tenant_id: Seq<char>,
    pub email: Seq<char>,
    pub plan: Seq<char>,
    pub status: Seq<char>,
    pub desired_state: Seq<char>,
    pub deployment_mode: Seq<char>,
    pub active_deployment_count: u8,
    pub stripe_checkout_session_id: Option<Seq<char>>,
    pub stripe_customer_id: Option<Seq<char>>,
    pub stripe_subscription_id: Option<Seq<char>>,
    pub api_url: Option<Seq<char>>,
    pub gateway_url: Option<Seq<char>>,
    pub console_url: Option<Seq<char>>,
    pub anon_key: Option<Seq<char>>,
    pub service_key: Option<Seq<char>>,
    pub dashboard_username: Option<Seq<char>>,
    pub dashboard_password: Option<Seq<char>>,
}

impl View for TenantRecord {
    type V = TenantRecordView;

    open spec fn view(&self) -> TenantRecordView {
        TenantRecordView {
            tenant_id: self.tenant_id@,
            email: self.email@,
            plan: self.plan@,
            status: self.status@,
            desired_state: self.desired_state@,
            deployment_mode: self.deployment_mode@,
            active_deployment_count: self.active_deployment_count,
            stripe_checkout_session_id: opt_view(self.stripe_checkout_session_id),
            stripe_customer_id: opt_view(self.stripe_customer_id),
            stripe_subscription_id: opt_view(self.stripe_subscription_id),
            api_url: opt_view(self.api_url),
            gateway_url: opt_view(self.gateway_url),
            console_url: opt_view(self.console_url),
            anon_key: opt_view(self.anon_key),
            service_key: opt_view(self.service_key),
            dashboard_username: opt_view(self.dashboard_username),
            dashboard_password: opt_view(self.dashboard_password),
        }
    }
}

impl TenantRecord {
    /// A field-by-field copy of the record.
    pub fn duplicate(&self) -> (r: TenantRecord)
        ensures
            r@ == self@,
    {
        TenantRecord {
            tenant_id: copy_str(self.tenant_id.as_str()),
            email: copy_str(self.email.as_str()),
            plan: copy_str(self.plan.as_str()),
            status: copy_str(self.status.as_str()),
            desired_state: copy_str(self.desired_state.as_str()),
            deployment_mode: copy_str(self.deployment_mode.as_str()),
            active_deployment_count: self.active_deployment_count,
            stripe_checkout_session_id: copy_opt(&self.stripe_checkout_session_id),
            stripe_customer_id: copy_opt(&self.stripe_customer_id),
            stripe_subscription_id: copy_opt(&self.stripe_subscription_id),
            api_url: copy_opt(&self.api_url),
            gateway_url: copy_opt(&self.gateway_url),
            console_url: copy_opt(&self.console_url),
            anon_key: copy_opt(&self.anon_key),
            service_key: copy_opt(&self.service_key),
            dashboard_username: copy_opt(&self.dashboard_username),
            dashboard_password: copy_opt(&self.dashboard_password),
        }
    }
}

} // verus!
