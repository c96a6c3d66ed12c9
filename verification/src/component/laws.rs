//! Properties of the component's request handling that span several steps.

use vstd::prelude::*;
use crate::component::flow::{
    component_start, component_step, tenant_api_url, AdminOp, ComponentActionView, ComponentBodyView,
    ComponentEventView, ComponentPhaseView, ComponentReplyView, ComponentSettings, TenantRecordView,
};
use crate::component::routes::{route_of, ComponentRouteView};
use crate::access::admin_allowed;
use crate::text::{has_prefix, has_suffix, trim_end_matches, trim_start_matches};
use crate::platform_api::messages::TenantMessageView;
use crate::billing::checkout::CheckoutRequestView;

verus! {

/// Creating a tenant billed through Stripe: the new record is stored under the fresh id with
/// the body's email and plan; it is then marked `pending_checkout`; billing is asked for a
/// checkout session for exactly that id, email and plan; the session is stored with status
/// `checkout_created`; and the answer carries the id, billing's checkout URL and that
/// status. If billing fails, the answer is a 500 carrying its message.
pub proof fn law_component_stripe_creation_flow(
    settings: ComponentSettings,
    id: Seq<char>,
    email: Seq<char>,
    plan: Seq<char>,
    url: Seq<char>,
    session: Seq<char>,
    failure: Seq<char>,
)
    requires
        settings.billing_mode@ == "stripe"@,
    ensures
        ({
            let key = settings.tenant_key_prefix@ + id;
            let (p1, a1) = component_step(settings, ComponentPhaseView::AwaitCreateBody,
                ComponentEventView::CreateBody(Some((email, plan))), id);
            let (p2, a2) = component_step(settings, p1, ComponentEventView::Stored, Seq::empty());
            let (p3, a3) = component_step(settings, p2, ComponentEventView::Stored, Seq::empty());
            let (p4, a4) = component_step(settings, p3, ComponentEventView::CheckoutReplied(Ok((url, session))), Seq::empty());
            let (p5, a5) = component_step(settings, p4, ComponentEventView::Stored, Seq::empty());
            let (q4, b4) = component_step(settings, p3, ComponentEventView::CheckoutReplied(Err(failure)), Seq::empty());
            &&& a1 matches ComponentActionView::Put(k1, r1) && k1 == key && r1.tenant_id == id
                && r1.email == email && r1.plan == plan && r1.status == "provisioning"@
                && r1.stripe_checkout_session_id is None && r1.anon_key is None && r1.service_key is None
            &&& a2 matches ComponentActionView::Put(k2, r2) && k2 == key && r2.tenant_id == id
                && r2.email == email && r2.plan == plan && r2.status == "pending_checkout"@
            &&& a3 == ComponentActionView::RequestCheckout(CheckoutRequestView { tenant_id: id, email: email, plan: plan })
            &&& a4 matches ComponentActionView::Put(k4, r4) && k4 == key && r4.tenant_id == id
                && r4.email == email && r4.plan == plan && r4.status == "checkout_created"@
                && r4.stripe_checkout_session_id == Some(session)
            &&& p5 == ComponentPhaseView::Finished
            &&& a5 == ComponentActionView::Reply(ComponentReplyView::Json(200,
                ComponentBodyView::CheckoutCreated(id, url, "checkout_created"@)))
            &&& q4 == ComponentPhaseView::Finished
            &&& b4 == ComponentActionView::Reply(ComponentReplyView::Json(500, ComponentBodyView::Internal(failure)))
        }),
{
}

/// Creating a tenant billed directly: after the new record is stored, the provisioner is
/// asked on the provisioning subject to provision exactly that tenant with the body's email
/// and plan; the record is stored `provisioning` again and the answer reports the id, that
/// status and the tenant's API URL.
pub proof fn law_component_direct_creation_flow(settings: ComponentSettings, id: Seq<char>, email: Seq<char>, plan: Seq<char>)
    requires
        settings.billing_mode@ != "stripe"@,
    ensures
        ({
            let (p1, _a1) = component_step(settings, ComponentPhaseView::AwaitCreateBody,
                ComponentEventView::CreateBody(Some((email, plan))), id);
            let (p2, a2) = component_step(settings, p1, ComponentEventView::Stored, Seq::empty());
            let (p3, a3) = component_step(settings, p2, ComponentEventView::Published, Seq::empty());
            let (p4, a4) = component_step(settings, p3, ComponentEventView::Stored, Seq::empty());
            &&& a2 == ComponentActionView::Publish(settings.provision_subject@,
                TenantMessageView { tenant_id: id, contact: Some((email, plan)) })
            &&& a3 matches ComponentActionView::Put(k3, r3) && k3 == settings.tenant_key_prefix@ + id
                && r3.tenant_id == id && r3.email == email && r3.plan == plan && r3.status == "provisioning"@
            &&& p4 == ComponentPhaseView::Finished
            &&& a4 == ComponentActionView::Reply(ComponentReplyView::Json(200,
                ComponentBodyView::ProvisioningStarted(id, "provisioning"@, tenant_api_url(settings.public_base_domain@, id))))
        }),
{
}

/// An admin operation on a stored tenant marks it (`reconciling` or `deprovisioning`) and
/// keeps everything else of the record, then publishes the operation for exactly that
/// tenant on the operation's own subject, and answers with the id and the new status. On a
/// tenant with no record it answers 404 and does nothing else.
pub proof fn law_component_admin_flow(settings: ComponentSettings, op: AdminOp, id: Seq<char>, rec: TenantRecordView)
    ensures
        ({
            let status = match op {
                AdminOp::Reconcile => "reconciling"@,
                AdminOp::Deprovision => "deprovisioning"@,
            };
            let subject = match op {
                AdminOp::Reconcile => settings.reconcile_subject@,
                AdminOp::Deprovision => settings.deprovision_subject@,
            };
            let (p1, a1) = component_step(settings, ComponentPhaseView::AwaitAdminTenant(op, id),
                ComponentEventView::Fetched(Some(rec)), Seq::empty());
            let (p2, a2) = component_step(settings, p1, ComponentEventView::Stored, Seq::empty());
            let (p3, a3) = component_step(settings, p2, ComponentEventView::Published, Seq::empty());
            let (q1, b1) = component_step(settings, ComponentPhaseView::AwaitAdminTenant(op, id),
                ComponentEventView::Fetched(None), Seq::empty());
            &&& a1 == ComponentActionView::Put(settings.tenant_key_prefix@ + rec.tenant_id,
                TenantRecordView { status: status, ..rec })
            &&& a2 == ComponentActionView::Publish(subject, TenantMessageView { tenant_id: id, contact: None })
            &&& p3 == ComponentPhaseView::Finished
            &&& a3 == ComponentActionView::Reply(ComponentReplyView::Json(200, ComponentBodyView::StatusChanged(id, status)))
            &&& q1 == ComponentPhaseView::Finished
            &&& b1 == ComponentActionView::Reply(ComponentReplyView::Json(404, ComponentBodyView::Error("not_found"@)))
        }),
{
}

/// Reading a tenant answers its record as stored, with the API URL defaulting to the
/// tenant's host when none is stored; a tenant with no record is a 404.
pub proof fn law_component_read_tenant(settings: ComponentSettings, id: Seq<char>, rec: TenantRecordView)
    ensures
        ({
            let (_p1, a1) = component_step(settings, ComponentPhaseView::AwaitTenant(id),
                ComponentEventView::Fetched(Some(rec)), Seq::empty());
            let (_q1, b1) = component_step(settings, ComponentPhaseView::AwaitTenant(id),
                ComponentEventView::Fetched(None), Seq::empty());
            &&& a1 matches ComponentActionView::Reply(ComponentReplyView::Json(200, ComponentBodyView::Tenant(shown)))
                && shown.tenant_id == rec.tenant_id && shown.email == rec.email && shown.plan == rec.plan
                && shown.status == rec.status && shown.anon_key == rec.anon_key && shown.service_key == rec.service_key
                && shown.dashboard_username == rec.dashboard_username
                && shown.dashboard_password == rec.dashboard_password
                && shown.stripe_checkout_session_id == rec.stripe_checkout_session_id
                && shown.api_url == Some(if rec.api_url is Some { rec.api_url->0 } else {
                    tenant_api_url(settings.public_base_domain@, id) })
            &&& b1 == ComponentActionView::Reply(ComponentReplyView::Json(404, ComponentBodyView::Error("not_found"@)))
        }),
{
}

/// Whether `id` is a tenant id as it stands in a path: not empty, and without `/`.
pub open spec fn path_segment(id: Seq<char>) -> bool {
    id.len() > 0 && forall|j: int| 0 <= j < id.len() ==> id[j] != '/'
}

/// A path segment neither starts nor ends with anything that begins with `/`.
proof fn lemma_segment_edges(id: Seq<char>, p: Seq<char>)
    requires
        path_segment(id),
        p.len() > 0,
        p[0] == '/',
    ensures
        !has_prefix(id, p),
        !has_suffix(id, p),
{
    if has_prefix(id, p) {
        assert(id.take(p.len() as int)[0] == id[0]);
    }
    if has_suffix(id, p) {
        assert(id.skip(id.len() - p.len())[0] == id[id.len() - p.len()]);
    }
}

/// An admin path `/v1/admin/tenants/{id}{suffix}` names the tenant `id`.
proof fn lemma_admin_path_id(id: Seq<char>, suffix: Seq<char>)
    requires
        path_segment(id),
        suffix.len() > 0,
        suffix[0] == '/',
    ensures
        trim_end_matches(trim_end_matches(trim_start_matches("/v1/admin/tenants/"@ + id + suffix, "/v1/admin/tenants/"@), suffix), "/"@) == id,
{
    reveal_strlit("/v1/admin/tenants/");
    reveal_strlit("/");
    let a = "/v1/admin/tenants/"@;
    let path = a + id + suffix;
    assert(path.take(a.len() as int) =~= a);
    assert(path.skip(a.len() as int) =~= id + suffix);
    let rest = id + suffix;
    assert(!has_prefix(rest, a)) by {
        if has_prefix(rest, a) {
            assert(rest.take(a.len() as int)[0] == rest[0]);
            assert(rest[0] == id[0]);
        }
    }
    assert(trim_start_matches(rest, a) == rest);
    assert(trim_start_matches(path, a) == rest);
    assert(rest.skip(rest.len() - suffix.len()) =~= suffix);
    assert(rest.take(rest.len() - suffix.len()) =~= id);
    lemma_segment_edges(id, suffix);
    assert(trim_end_matches(id, suffix) == id);
    assert(trim_end_matches(rest, suffix) == id);
    lemma_segment_edges(id, "/"@);
}

/// The component's routes: `GET /healthz` is the health check, `POST /v1/tenants` a
/// creation, `GET /v1/tenants/{id}` a read of tenant `id`, and, with the admin token (or
/// none configured), `POST /v1/admin/tenants/{id}/reconcile` and `.../deprovision` the
/// admin operations on tenant `id`. A read or admin operation reads the record of exactly
/// that tenant under the configured key prefix.
pub proof fn law_component_routes(
    settings: ComponentSettings,
    id: Seq<char>,
    admin_token: Option<Seq<char>>,
    authorization: Seq<char>,
)
    requires
        path_segment(id),
    ensures
        route_of("GET"@, "/healthz"@, admin_token, authorization) == ComponentRouteView::Health,
        route_of("POST"@, "/v1/tenants"@, admin_token, authorization) == ComponentRouteView::CreateTenant,
        route_of("GET"@, "/v1/tenants/"@ + id, admin_token, authorization) == ComponentRouteView::GetTenant(id),
        admin_allowed(admin_token, authorization) ==> route_of("POST"@, "/v1/admin/tenants/"@ + id + "/reconcile"@,
            admin_token, authorization) == ComponentRouteView::AdminReconcile(id),
        admin_allowed(admin_token, authorization) ==> route_of("POST"@, "/v1/admin/tenants/"@ + id + "/deprovision"@,
            admin_token, authorization) == ComponentRouteView::AdminDeprovision(id),
        component_start(settings, ComponentRouteView::GetTenant(id))
            == (ComponentPhaseView::AwaitTenant(id), ComponentActionView::Get(settings.tenant_key_prefix@ + id)),
        component_start(settings, ComponentRouteView::AdminReconcile(id))
            == (ComponentPhaseView::AwaitAdminTenant(AdminOp::Reconcile, id), ComponentActionView::Get(settings.tenant_key_prefix@ + id)),
        component_start(settings, ComponentRouteView::AdminDeprovision(id))
            == (ComponentPhaseView::AwaitAdminTenant(AdminOp::Deprovision, id), ComponentActionView::Get(settings.tenant_key_prefix@ + id)),
{
    reveal_strlit("GET");
    reveal_strlit("POST");
    reveal_strlit("/healthz");
    reveal_strlit("/v1/tenants");
    reveal_strlit("/v1/tenants/");
    reveal_strlit("/v1/admin/tenants/");
    reveal_strlit("/reconcile");
    reveal_strlit("/deprovision");
    assert("GET"@ != "POST"@) by {
        assert("GET"@.len() != "POST"@.len());
    }
    assert("/v1/tenants"@ != "/healthz"@) by {
        assert("/v1/tenants"@.len() != "/healthz"@.len());
    }
    // a tenant read
    let t = "/v1/tenants/"@;
    let read = t + id;
    assert(read != "/healthz"@) by {
        assert(read.len() != "/healthz"@.len());
    }
    assert(read.take(t.len() as int) =~= t);
    assert(read.skip(t.len() as int) =~= id);
    lemma_segment_edges(id, t);
    assert(has_prefix(read, t));
    assert(trim_start_matches(id, t) == id);
    assert(trim_start_matches(read, t) == trim_start_matches(read.skip(t.len() as int), t));
    // the admin operations
    let a = "/v1/admin/tenants/"@;
    let rc = "/reconcile"@;
    let dp = "/deprovision"@;
    let prc = a + id + rc;
    let pdp = a + id + dp;
    assert(prc.take(a.len() as int) =~= a);
    assert(pdp.take(a.len() as int) =~= a);
    assert(prc.skip(prc.len() - rc.len()) =~= rc);
    assert(pdp.skip(pdp.len() - dp.len()) =~= dp);
    assert(!has_suffix(pdp, rc)) by {
        assert(pdp.skip(pdp.len() - rc.len())[0] == dp[2]);
    }
    lemma_admin_path_id(id, rc);
    lemma_admin_path_id(id, dp);
}

} // verus!
