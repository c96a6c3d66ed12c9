//! The messages the provisioner listens to, and the job each one starts.

use vstd::prelude::*;
use crate::text::{copy_opt, copy_str, opt_view};
use crate::provisioner::record::TenantRecord;
use crate::provisioner::jobs::{
    or_else, ProvisionJob, ProvisionJobView, TeardownJob, TeardownJobView, TeardownKind,
    TeardownKindView,
};

verus! {

/// The provisioner's settings that jobs need.
pub struct ProvisionerSettings {
    pub base_domain: String,
    pub public_web_base_url: String,
    pub backend: String,
}

/// Billing reports that a tenant's subscription became active.
pub struct BillingActiveEvent {
    pub tenant_id: String,
    pub stripe_customer_id: Option<String>,
    pub stripe_subscription_id: Option<String>,
    pub stripe_checkout_session_id: Option<String>,
    pub activated_at: Option<i64>,
}

/// Billing reports that a tenant's subscription was canceled.
pub struct BillingCanceledEvent {
    pub tenant_id: String,
    pub canceled_at: Option<i64>,
}

/// A request to provision a tenant (also the shape of a resume request).
pub struct ProvisionRequest {
    pub tenant_id: String,
    pub email: Option<String>,
    pub plan: Option<String>,
}

/// A request that names a tenant only (pause, delete, deprovision, reconcile).
pub struct TenantRequest {
    pub tenant_id: String,
}

/// A provisioning job for `tenant_id` with the given contact and billing details.
pub open spec fn provision_job_of(
    settings: ProvisionerSettings,
    tenant_id: Seq<char>,
    email: Option<Seq<char>>,
    plan: Option<Seq<char>>,
    session: Option<Seq<char>>,
    customer: Option<Seq<char>>,
    subscription: Option<Seq<char>>,
) -> ProvisionJobView {
    ProvisionJobView {
        tenant_id: tenant_id,
        base_domain: settings.base_domain@,
        public_web_base_url: settings.public_web_base_url@,
        backend: settings.backend@,
        email: email,
        plan: plan,
        stripe_checkout_session_id: session,
        stripe_customer_id: customer,
        stripe_subscription_id: subscription,
    }
}

/// A teardown job for `tenant_id`.
pub open spec fn teardown_job_of(settings: ProvisionerSettings, tenant_id: Seq<char>, kind: TeardownKindView) -> TeardownJobView {
    TeardownJobView {
        tenant_id: tenant_id,
        base_domain: settings.base_domain@,
        public_web_base_url: settings.public_web_base_url@,
        backend: settings.backend@,
        kind: kind,
    }
}

impl ProvisionerSettings {
    fn provision_job(
        &self,
        tenant_id: &str,
        email: Option<String>,
        plan: Option<String>,
        session: Option<String>,
        customer: Option<String>,
        subscription: Option<String>,
    ) -> (job: ProvisionJob)
        ensures
            job@ == provision_job_of(*self, tenant_id@, opt_view(email), opt_view(plan),
                opt_view(session), opt_view(customer), opt_view(subscription)),
    {
        ProvisionJob {
            tenant_id: copy_str(tenant_id),
            base_domain: copy_str(self.base_domain.as_str()),
            public_web_base_url: copy_str(self.public_web_base_url.as_str()),
            backend: copy_str(self.backend.as_str()),
            email: email,
            plan: plan,
            stripe_checkout_session_id: session,
            stripe_customer_id: customer,
            stripe_subscription_id: subscription,
        }
    }

    fn teardown_job(&self, tenant_id: &str, kind: TeardownKind) -> (job: TeardownJob)
        ensures
            job@ == teardown_job_of(*self, tenant_id@, kind@),
    {
        TeardownJob {
            tenant_id: copy_str(tenant_id),
            base_domain: copy_str(self.base_domain.as_str()),
            public_web_base_url: copy_str(self.public_web_base_url.as_str()),
            backend: copy_str(self.backend.as_str()),
            kind: kind,
        }
    }

    /// An active subscription provisions the tenant, carrying the billing ids along.
    pub fn active_event_job(&self, evt: &BillingActiveEvent) -> (job: ProvisionJob)
        ensures
            job@ == provision_job_of(*self, evt.tenant_id@, None, None,
                opt_view(evt.stripe_checkout_session_id), opt_view(evt.stripe_customer_id),
                opt_view(evt.stripe_subscription_id)),
    {
        self.provision_job(evt.tenant_id.as_str(), None, None,
            copy_opt(&evt.stripe_checkout_session_id), copy_opt(&evt.stripe_customer_id),
            copy_opt(&evt.stripe_subscription_id))
    }

    /// A canceled subscription pauses the tenant with status `suspended`.
    pub fn canceled_event_job(&self, evt: &BillingCanceledEvent) -> (job: TeardownJob)
        ensures
            job@ == teardown_job_of(*self, evt.tenant_id@, TeardownKindView::Pause("suspended"@)),
    {
        self.teardown_job(evt.tenant_id.as_str(), TeardownKind::Pause(copy_str("suspended")))
    }

    /// A direct provisioning request carries contact details and no billing ids.
    pub fn provision_request_job(&self, req: &ProvisionRequest) -> (job: ProvisionJob)
        ensures
            job@ == provision_job_of(*self, req.tenant_id@, opt_view(req.email),
                opt_view(req.plan), None, None, None),
    {
        self.provision_job(req.tenant_id.as_str(), copy_opt(&req.email), copy_opt(&req.plan),
            None, None, None)
    }

    /// A pause request pauses the tenant with status `paused`.
    pub fn pause_request_job(&self, req: &TenantRequest) -> (job: TeardownJob)
        ensures
            job@ == teardown_job_of(*self, req.tenant_id@, TeardownKindView::Pause("paused"@)),
    {
        self.teardown_job(req.tenant_id.as_str(), TeardownKind::Pause(copy_str("paused")))
    }

    /// A deprovision request is the older name of a pause request and does the same.
    pub fn deprovision_request_job(&self, req: &TenantRequest) -> (job: TeardownJob)
        ensures
            job@ == teardown_job_of(*self, req.tenant_id@, TeardownKindView::Pause("paused"@)),
    {
        self.pause_request_job(req)
    }

    /// A delete request removes the tenant's stack.
    pub fn delete_request_job(&self, req: &TenantRequest) -> (job: TeardownJob)
        ensures
            job@ == teardown_job_of(*self, req.tenant_id@, TeardownKindView::Delete),
    {
        self.teardown_job(req.tenant_id.as_str(), TeardownKind::Delete)
    }

    /// A resume request provisions the tenant again: contact details come from the request,
    /// or from the stored record where the request has none; billing ids come from the
    /// stored record.
    pub fn resume_request_job(&self, req: &ProvisionRequest, existing: &Option<TenantRecord>) -> (job:
        ProvisionJob)
        ensures
            job@ == provision_job_of(*self, req.tenant_id@,
                or_else(opt_view(req.email), stored(*existing, |r: TenantRecord| opt_view(r.email))),
                or_else(opt_view(req.plan), stored(*existing, |r: TenantRecord| opt_view(r.plan))),
                stored(*existing, |r: TenantRecord| opt_view(r.stripe_checkout_session_id)),
                stored(*existing, |r: TenantRecord| opt_view(r.stripe_customer_id)),
                stored(*existing, |r: TenantRecord| opt_view(r.stripe_subscription_id))),
    {
        let (stored_email, stored_plan, session, customer, subscription) = stored_details(
            existing,
        );
        let email = match &req.email {
            Some(e) => Some(copy_str(e.as_str())),
            None => stored_email,
        };
        let plan = match &req.plan {
            Some(p) => Some(copy_str(p.as_str())),
            None => stored_plan,
        };
        self.provision_job(req.tenant_id.as_str(), email, plan, session, customer, subscription)
    }

    /// A reconcile request provisions the tenant again with the contact details and billing
    /// ids of the stored record.
    pub fn reconcile_request_job(&self, req: &TenantRequest, existing: &Option<TenantRecord>) -> (job:
        ProvisionJob)
        ensures
            job@ == provision_job_of(*self, req.tenant_id@,
                stored(*existing, |r: TenantRecord| opt_view(r.email)),
                stored(*existing, |r: TenantRecord| opt_view(r.plan)),
                stored(*existing, |r: TenantRecord| opt_view(r.stripe_checkout_session_id)),
                stored(*existing, |r: TenantRecord| opt_view(r.stripe_customer_id)),
                stored(*existing, |r: TenantRecord| opt_view(r.stripe_subscription_id))),
    {
        let (email, plan, session, customer, subscription) = stored_details(existing);
        self.provision_job(req.tenant_id.as_str(), email, plan, session, customer, subscription)
    }
}

/// A field of the stored record, `None` when there is no record.
pub open spec fn stored(existing: Option<TenantRecord>, field: spec_fn(TenantRecord) -> Option<Seq<char>>) -> Option<Seq<char>> {
    match existing {
        Some(r) => field(r),
        None => None,
    }
}

/// Copies of the stored record's email, plan, checkout session id, customer id and
/// subscription id (all `None` when there is no record).
fn stored_details(existing: &Option<TenantRecord>) -> (r: (
    Option<String>,
    Option<String>,
    Option<String>,
    Option<String>,
    Option<String>,
))
    ensures
        opt_view(r.0) == stored(*existing, |t: TenantRecord| opt_view(t.email)),
        opt_view(r.1) == stored(*existing, |t: TenantRecord| opt_view(t.plan)),
        opt_view(r.2) == stored(*existing, |t: TenantRecord| opt_view(t.stripe_checkout_session_id)),
        opt_view(r.3) == stored(*existing, |t: TenantRecord| opt_view(t.stripe_customer_id)),
        opt_view(r.4) == stored(*existing, |t: TenantRecord| opt_view(t.stripe_subscription_id)),
{
    match existing {
        Some(t) => (
            copy_opt(&t.email),
            copy_opt(&t.plan),
            copy_opt(&t.stripe_checkout_session_id),
            copy_opt(&t.stripe_customer_id),
            copy_opt(&t.stripe_subscription_id),
        ),
        None => (None, None, None, None, None),
    }
}

} // verus!
