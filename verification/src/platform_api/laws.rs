//! Properties of the platform API's lifecycle rules and flows.

use vstd::prelude::*;
use crate::access::admin_allowed;
use crate::text::opt_view;
use crate::platform_api::record::TenantRecordView;
use crate::platform_api::lifecycle::{
    desired_state_of, lifecycle_record, lifecycle_refused, LifecycleAction,
};
use crate::platform_api::flows::{
    authorization_of, create_step, lifecycle_start, lifecycle_step, new_record_of, route_request_of, tenant_url_of,
    ApiSettings, CreatePhaseView, CreateSettingsView, LifecyclePhaseView, LifecycleRequest,
    LifecycleRoute,
};
use crate::platform_api::messages::{ApiActionView, ApiEventView, ApiReplyView, TenantMessageView};
use crate::billing::checkout::CheckoutRequestView;

verus! {

/// Lifecycle requests are accepted in every phase of a deployment (provisioning, active,
/// paused, suspended, reconciling, ...) except once it is deleted; a deleted deployment
/// accepts only another delete.
pub proof fn law_lifecycle_accepted_unless_deleted(action: LifecycleAction, rec: TenantRecordView)
    ensures
        rec.status != "deleted"@ ==> !lifecycle_refused(action, rec),
        rec.status == "deleted"@ ==> (lifecycle_refused(action, rec) <==> action != LifecycleAction::Delete),
{
}

/// A tenant keeps at most one active deployment through lifecycle requests: the count never
/// grows, and a delete leaves none.
pub proof fn law_lifecycle_single_deployment(action: LifecycleAction, rec: TenantRecordView)
    requires
        rec.active_deployment_count <= 1,
    ensures
        lifecycle_record(action, rec).active_deployment_count <= rec.active_deployment_count,
        action == LifecycleAction::Delete ==> lifecycle_record(action, rec).active_deployment_count == 0,
{
}

/// An accepted request records the desired state it asks for (`paused`, `active` or
/// `deleted`), and a pause or delete of a tenant with nothing running reaches it at once.
/// Deleting a deleted tenant leaves it `deleted`.
pub proof fn law_lifecycle_desired_state(action: LifecycleAction, rec: TenantRecordView)
    ensures
        lifecycle_record(action, rec).desired_state == desired_state_of(action),
        desired_state_of(LifecycleAction::Pause) == "paused"@,
        desired_state_of(LifecycleAction::Resume) == "active"@,
        desired_state_of(LifecycleAction::Reconcile) == "active"@,
        desired_state_of(LifecycleAction::Delete) == "deleted"@,
        (action == LifecycleAction::Pause || action == LifecycleAction::Delete) && rec.active_deployment_count == 0
            ==> lifecycle_record(action, rec).status == desired_state_of(action),
        action == LifecycleAction::Delete && rec.status == "deleted"@ ==> lifecycle_record(action, rec).status == "deleted"@,
{
}

/// Admin routes need the admin token when one is configured: a request whose
/// `Authorization` is not `Bearer {token}` is answered with an error and the tenant's
/// record is not even read. Without a configured token, admin routes are open.
pub proof fn law_admin_routes_require_token(settings: ApiSettings, req: LifecycleRequest)
    requires
        req.require_admin_auth,
    ensures
        (req.headers is None || !admin_allowed(opt_view(settings.admin_token), authorization_of(req.headers->0)))
            ==> (lifecycle_start(settings, req).0 == LifecyclePhaseView::Finished
                && lifecycle_start(settings, req).1 matches ApiActionView::Reply(ApiReplyView::Failed(_))),
        (settings.admin_token is None && req.headers is Some) ==> lifecycle_start(settings, req).1 matches ApiActionView::Load(_),
{
}

/// A lifecycle request that passes the admin check (or needs none) goes on by reading the
/// record of exactly the requested tenant, under the configured key prefix.
pub proof fn law_lifecycle_reads_requested_tenant(settings: ApiSettings, req: LifecycleRequest)
    requires
        !req.require_admin_auth || (req.headers is Some
            && admin_allowed(opt_view(settings.admin_token), authorization_of(req.headers->0))),
    ensures
        lifecycle_start(settings, req) == (LifecyclePhaseView::AwaitRecord,
            ApiActionView::Load(settings.tenant_key_prefix@ + req.tenant_id@)),
{
}

/// The older admin route `deprovision` is a pause.
pub proof fn law_deprovision_is_pause()
    ensures
        route_request_of(LifecycleRoute::AdminDeprovision) == route_request_of(LifecycleRoute::AdminPause),
{
}

/// A new tenant's API, gateway and console URLs are all the root of its own host, and it
/// starts with a single deployment slot and nothing running.
pub proof fn law_new_tenant_urls(base_domain: Seq<char>, tenant_id: Seq<char>, email: Seq<char>, plan: Seq<char>)
    ensures
        new_record_of(base_domain, tenant_id, email, plan).console_url == Some(tenant_url_of(base_domain, tenant_id)),
        new_record_of(base_domain, tenant_id, email, plan).gateway_url == Some(tenant_url_of(base_domain, tenant_id)),
        new_record_of(base_domain, tenant_id, email, plan).api_url == Some(tenant_url_of(base_domain, tenant_id)),
        new_record_of(base_domain, tenant_id, email, plan).deployment_mode == "single"@,
        new_record_of(base_domain, tenant_id, email, plan).active_deployment_count == 0,
{
}


/// A new tenant's record holds the id, email and plan it was created with, is
/// `provisioning` with desired state `active`, and has no billing ids, keys or dashboard
/// login yet.
pub proof fn law_new_tenant_record(base_domain: Seq<char>, tenant_id: Seq<char>, email: Seq<char>, plan: Seq<char>)
    ensures
        ({
            let r = new_record_of(base_domain, tenant_id, email, plan);
            &&& r.tenant_id == tenant_id && r.email == email && r.plan == plan
            &&& r.status == "provisioning"@ && r.desired_state == "active"@
            &&& r.stripe_checkout_session_id is None && r.stripe_customer_id is None && r.stripe_subscription_id is None
            &&& r.anon_key is None && r.service_key is None
            &&& r.dashboard_username is None && r.dashboard_password is None
        }),
{
}

/// A lifecycle request changes only the tenant's lifecycle state: its id, contact details,
/// billing ids, URLs, keys and dashboard login stay as they were.
pub proof fn law_lifecycle_keeps_tenant_data(action: LifecycleAction, rec: TenantRecordView)
    ensures
        ({
            let n = lifecycle_record(action, rec);
            &&& n.tenant_id == rec.tenant_id && n.email == rec.email && n.plan == rec.plan
            &&& n.deployment_mode == rec.deployment_mode
            &&& n.stripe_checkout_session_id == rec.stripe_checkout_session_id
            &&& n.stripe_customer_id == rec.stripe_customer_id
            &&& n.stripe_subscription_id == rec.stripe_subscription_id
            &&& n.api_url == rec.api_url && n.gateway_url == rec.gateway_url && n.console_url == rec.console_url
            &&& n.anon_key == rec.anon_key && n.service_key == rec.service_key
            &&& n.dashboard_username == rec.dashboard_username && n.dashboard_password == rec.dashboard_password
        }),
{
}

/// The status each lifecycle request moves a tenant to. A reconcile is always
/// `reconciling` and a resume `provisioning` unless the tenant is already active with its
/// deployment; both ask for `active` and leave the deployment count alone. A pause is
/// `paused` at once when nothing runs and `pausing` otherwise; a delete is `deleted` at once
/// when nothing runs (or the tenant is already deleted) and `deleting` otherwise, and
/// leaves no deployment counted.
pub proof fn law_lifecycle_status_rules(action: LifecycleAction, rec: TenantRecordView)
    ensures
        ({
            let n = lifecycle_record(action, rec);
            &&& action == LifecycleAction::Reconcile ==> n.status == "reconciling"@ && n.desired_state == "active"@
                && n.active_deployment_count == rec.active_deployment_count
            &&& action == LifecycleAction::Resume ==> n.desired_state == "active"@
                && n.active_deployment_count == rec.active_deployment_count
                && n.status == (if rec.status == "active"@ && rec.active_deployment_count == 1 { "active"@ } else { "provisioning"@ })
            &&& action == LifecycleAction::Pause ==> n.desired_state == "paused"@
                && n.active_deployment_count == rec.active_deployment_count
                && n.status == (if rec.active_deployment_count == 0 { "paused"@ } else { "pausing"@ })
            &&& action == LifecycleAction::Delete ==> n.desired_state == "deleted"@ && n.active_deployment_count == 0
                && n.status == (if rec.active_deployment_count == 0 || rec.status == "deleted"@ { "deleted"@ } else { "deleting"@ })
        }),
{
}

/// Creating a tenant billed through Stripe: the record is first marked `pending_checkout`;
/// billing is then asked for a checkout session for exactly the tenant id, email and plan
/// the tenant was created with; the session is recorded with status `checkout_created`,
/// keeping the tenant's id, contact details and URLs; and the answer carries the checkout
/// URL and the tenant's URLs. If billing fails, the answer is a 500 carrying its message.
pub proof fn law_stripe_creation_flow(
    settings: CreateSettingsView,
    base: Seq<char>,
    id: Seq<char>,
    email: Seq<char>,
    plan: Seq<char>,
    url: Seq<char>,
    session: Seq<char>,
    failure: Seq<char>,
)
    requires
        settings.stripe,
    ensures
        ({
            let home = tenant_url_of(base, id);
            let key = settings.tenant_key_prefix + id;
            let p0 = CreatePhaseView::AwaitInitialWrite(new_record_of(base, id, email, plan));
            let (p1, a1) = create_step(settings, p0, ApiEventView::Written);
            let (p2, a2) = create_step(settings, p1, ApiEventView::Written);
            let (p3, a3) = create_step(settings, p2, ApiEventView::CheckoutReplied(Ok((url, session))));
            let (p4, a4) = create_step(settings, p3, ApiEventView::Written);
            let (q3, b3) = create_step(settings, p2, ApiEventView::CheckoutReplied(Err(failure)));
            &&& a1 matches ApiActionView::Write(k1, r1) && k1 == key && r1.tenant_id == id && r1.email == email
                && r1.plan == plan && r1.status == "pending_checkout"@ && r1.desired_state == "active"@
                && r1.active_deployment_count == 0
            &&& a2 == ApiActionView::RequestCheckout(CheckoutRequestView { tenant_id: id, email: email, plan: plan })
            &&& a3 matches ApiActionView::Write(k3, r3) && k3 == key && r3.tenant_id == id && r3.email == email
                && r3.plan == plan && r3.status == "checkout_created"@ && r3.stripe_checkout_session_id == Some(session)
                && r3.gateway_url == Some(home) && r3.console_url == Some(home) && r3.api_url == Some(home)
            &&& p4 == CreatePhaseView::Finished
            &&& a4 matches ApiActionView::Reply(ApiReplyView::Created(c)) && c.tenant_id == id
                && c.status == "checkout_created"@ && c.desired_state == "active"@ && c.deployment_mode == "single"@
                && c.active_deployment_count == 0 && c.checkout_url == Some(url) && c.api_url == Some(home)
                && c.gateway_url == Some(home) && c.console_url == Some(home)
            &&& q3 == CreatePhaseView::Finished
            &&& b3 matches ApiActionView::Reply(ApiReplyView::Failed(e)) && e.status == 500 && e.message == Some(failure)
        }),
{
}

/// Creating a tenant billed directly: the provisioner is asked to provision exactly the new
/// tenant, with the email and plan it was created with, and the answer reports the tenant
/// `provisioning` with its URLs and no checkout URL.
pub proof fn law_direct_creation_flow(settings: CreateSettingsView, base: Seq<char>, id: Seq<char>, email: Seq<char>, plan: Seq<char>)
    requires
        !settings.stripe,
    ensures
        ({
            let home = tenant_url_of(base, id);
            let p0 = CreatePhaseView::AwaitInitialWrite(new_record_of(base, id, email, plan));
            let (p1, a1) = create_step(settings, p0, ApiEventView::Written);
            let (p2, a2) = create_step(settings, p1, ApiEventView::Published);
            &&& a1 == ApiActionView::Publish(settings.provision_request_subject,
                TenantMessageView { tenant_id: id, contact: Some((email, plan)) })
            &&& p2 == CreatePhaseView::Finished
            &&& a2 matches ApiActionView::Reply(ApiReplyView::Created(c)) && c.tenant_id == id
                && c.status == "provisioning"@ && c.desired_state == "active"@ && c.deployment_mode == "single"@
                && c.active_deployment_count == 0 && c.checkout_url is None && c.api_url == Some(home)
                && c.gateway_url == Some(home) && c.console_url == Some(home)
        }),
{
}

/// A lifecycle request on a stored tenant: a refused request is answered 409 and writes
/// nothing; an accepted one writes the updated record under the tenant's key, then
/// publishes the request for exactly that tenant on the action's own subject (a resume
/// also carries the tenant's email and plan, so that the stack can be created again), and
/// acknowledges with the tenant's id and the status, desired state and deployment count
/// that were written. A tenant with no record is a 404.
pub proof fn law_lifecycle_flow(settings: ApiSettings, action: LifecycleAction, rec: TenantRecordView)
    ensures
        ({
            let subject = match action {
                LifecycleAction::Pause => settings.subjects.pause@,
                LifecycleAction::Resume => settings.subjects.resume@,
                LifecycleAction::Delete => settings.subjects.delete@,
                LifecycleAction::Reconcile => settings.subjects.reconcile@,
            };
            let (p1, a1) = lifecycle_step(settings, action, LifecyclePhaseView::AwaitRecord, ApiEventView::Loaded(Some(rec)));
            let (p2, a2) = lifecycle_step(settings, action, p1, ApiEventView::Written);
            let (p3, a3) = lifecycle_step(settings, action, p2, ApiEventView::Published);
            let (q1, b1) = lifecycle_step(settings, action, LifecyclePhaseView::AwaitRecord, ApiEventView::Loaded(None));
            &&& lifecycle_refused(action, rec) ==> (a1 matches ApiActionView::Reply(ApiReplyView::Failed(e))
                && e.status == 409 && p1 == LifecyclePhaseView::Finished)
            &&& !lifecycle_refused(action, rec) ==> {
                &&& a1 matches ApiActionView::Write(k, w) && k == settings.tenant_key_prefix@ + rec.tenant_id
                    && w == lifecycle_record(action, rec)
                &&& a2 == ApiActionView::Publish(subject, TenantMessageView {
                    tenant_id: rec.tenant_id,
                    contact: if action == LifecycleAction::Resume { Some((rec.email, rec.plan)) } else { None },
                })
                &&& p3 == LifecyclePhaseView::Finished
                &&& a3 matches ApiActionView::Reply(ApiReplyView::Ack(ack)) && ack.tenant_id == rec.tenant_id
                    && ack.status == a1->Write_1.status && ack.desired_state == a1->Write_1.desired_state
                    && ack.active_deployment_count == a1->Write_1.active_deployment_count
            }
            &&& q1 == LifecyclePhaseView::Finished
            &&& b1 matches ApiActionView::Reply(ApiReplyView::Failed(e)) && e.status == 404
        }),
{
}

} // verus!
