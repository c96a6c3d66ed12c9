//! The platform API's request flows as state machines: tenant creation and lifecycle
//! requests. Each flow starts from the request, then takes the events the service reports
//! (a record read, a write done, a message published, billing's answer) and gives the next
//! action, until it answers the request.

use vstd::prelude::*;
use crate::text::{concat2, concat4, copy_str, opt_view, str_eq};
use crate::access::{admin_allowed, require_admin};
use crate::ids::{is_uuid_v4_text, new_tenant_id};
use crate::component::config::tenant_key;
use crate::platform_api::record::{TenantRecord, TenantRecordView};
use crate::platform_api::errors::{error_code_of, ApiError};
use crate::platform_api::lifecycle::{
    apply_lifecycle_action, lifecycle_record, lifecycle_refused, refusal_message, LifecycleAction,
    LifecycleSubjects,
};
use crate::platform_api::messages::{
    AckResponse, AckResponseView, ApiAction, ApiActionView, ApiErrorView, ApiEvent, ApiEventView,
    ApiReply, ApiReplyView, CreateTenantResponse, CreateTenantResponseView, TenantMessage,
    TenantMessageView,
};
use crate::billing::checkout::{CheckoutRequest, CheckoutRequestView, CheckoutResponse};

verus! {

/// The platform API's settings that its flows need.
pub struct ApiSettings {
    pub tenant_key_prefix: String,
    /// `stripe` sends new tenants through checkout; anything else provisions directly.
    pub billing_mode: String,
    pub provision_request_subject: String,
    pub subjects: LifecycleSubjects,
    pub public_tenant_base_domain: String,
    pub admin_token: Option<String>,
}

/// `http://{tenant_id}.{base_domain}`.
pub open spec fn tenant_url_of(base_domain: Seq<char>, tenant_id: Seq<char>) -> Seq<char> {
    "http://"@ + tenant_id + "."@ + base_domain
}

/// The URL of a tenant's API gateway.
pub fn tenant_gateway_url(public_tenant_base_domain: &str, tenant_id: &str) -> (url: String)
    ensures
        url@ == tenant_url_of(public_tenant_base_domain@, tenant_id@),
{
    concat4("http://", tenant_id, ".", public_tenant_base_domain)
}

/// The URL of a tenant's console, which is the root of the tenant's host: the gateway URL.
pub fn tenant_console_url(public_tenant_base_domain: &str, tenant_id: &str) -> (url: String)
    ensures
        url@ == tenant_url_of(public_tenant_base_domain@, tenant_id@),
{
    tenant_gateway_url(public_tenant_base_domain, tenant_id)
}

/// The record of a newly created tenant: `provisioning`, desired `active`, a single
/// deployment slot with nothing running, and its gateway and console URLs.
pub open spec fn new_record_of(base_domain: Seq<char>, tenant_id: Seq<char>, email: Seq<char>, plan: Seq<char>) -> TenantRecordView {
    let url = tenant_url_of(base_domain, tenant_id);
    TenantRecordView {
        tenant_id: tenant_id,
        email: email,
        plan: plan,
        status: "provisioning"@,
        desired_state: "active"@,
        deployment_mode: "single"@,
        active_deployment_count: 0,
        stripe_checkout_session_id: None,
        stripe_customer_id: None,
        stripe_subscription_id: None,
        api_url: Some(url),
        gateway_url: Some(url),
        console_url: Some(url),
        anon_key: None,
        service_key: None,
        dashboard_username: None,
        dashboard_password: None,
    }
}

/// The answer to a creation, from the record and billing's checkout URL (if any).
pub open spec fn created_of(rec: TenantRecordView, checkout_url: Option<Seq<char>>) -> CreateTenantResponseView {
    CreateTenantResponseView {
        tenant_id: rec.tenant_id,
        status: rec.status,
        desired_state: rec.desired_state,
        deployment_mode: rec.deployment_mode,
        active_deployment_count: rec.active_deployment_count,
        checkout_url: checkout_url,
        api_url: rec.api_url,
        gateway_url: rec.gateway_url,
        console_url: rec.console_url,
    }
}

/// Where a creation stands.
pub enum CreatePhase {
    AwaitInitialWrite(TenantRecord),
    AwaitPendingWrite(TenantRecord),
    AwaitCheckout(TenantRecord),
    AwaitCheckoutWrite(TenantRecord, String),
    AwaitPublish(TenantRecord),
    Finished,
}

/// The mathematical value of `CreatePhase`.
pub enum CreatePhaseView {
    AwaitInitialWrite(TenantRecordView),
    AwaitPendingWrite(TenantRecordView),
    AwaitCheckout(TenantRecordView),
    AwaitCheckoutWrite(TenantRecordView, Seq<char>),
    AwaitPublish(TenantRecordView),
    Finished,
}

impl View for CreatePhase {
    type V = CreatePhaseView;

    open spec fn view(&self) -> CreatePhaseView {
        match self {
            CreatePhase::AwaitInitialWrite(r) => CreatePhaseView::AwaitInitialWrite(r@),
            CreatePhase::AwaitPendingWrite(r) => CreatePhaseView::AwaitPendingWrite(r@),
            CreatePhase::AwaitCheckout(r) => CreatePhaseView::AwaitCheckout(r@),
            CreatePhase::AwaitCheckoutWrite(r, u) => CreatePhaseView::AwaitCheckoutWrite(r@, u@),
            CreatePhase::AwaitPublish(r) => CreatePhaseView::AwaitPublish(r@),
            CreatePhase::Finished => CreatePhaseView::Finished,
        }
    }
}

/// The settings as the creation flow reads them.
pub struct CreateSettingsView {
    pub tenant_key_prefix: Seq<char>,
    pub stripe: bool,
    pub provision_request_subject: Seq<char>,
}

/// The settings as the creation flow reads them.
pub open spec fn create_settings_of(s: ApiSettings) -> CreateSettingsView {
    CreateSettingsView {
        tenant_key_prefix: s.tenant_key_prefix@,
        stripe: s.billing_mode@ == "stripe"@,
        provision_request_subject: s.provision_request_subject@,
    }
}

/// The answer to a failure of the service's own work.
pub open spec fn internal_error_of(message: Seq<char>) -> ApiErrorView {
    ApiErrorView { status: 500, error: error_code_of(500), message: Some(message) }
}

/// One step of a creation: after the first write, a Stripe-billed tenant is marked
/// `pending_checkout` and billing is asked for a session; once it answers, the record is
/// marked `checkout_created` with the session's id, and the answer carries the checkout URL.
/// A directly billed tenant is handed to the provisioner instead, and the answer reports the
/// record as first written.
pub open spec fn create_step(settings: CreateSettingsView, phase: CreatePhaseView, event: ApiEventView) -> (CreatePhaseView, ApiActionView) {
    match (phase, event) {
        (CreatePhaseView::AwaitInitialWrite(rec), ApiEventView::Written) => {
            if settings.stripe {
                let pending = TenantRecordView { status: "pending_checkout"@, ..rec };
                (CreatePhaseView::AwaitPendingWrite(pending), ApiActionView::Write(
                    settings.tenant_key_prefix + pending.tenant_id, pending))
            } else {
                (CreatePhaseView::AwaitPublish(rec), ApiActionView::Publish(
                    settings.provision_request_subject,
                    TenantMessageView { tenant_id: rec.tenant_id, contact: Some((rec.email, rec.plan)) }))
            }
        },
        (CreatePhaseView::AwaitPendingWrite(rec), ApiEventView::Written) => (CreatePhaseView::AwaitCheckout(rec),
            ApiActionView::RequestCheckout(CheckoutRequestView { tenant_id: rec.tenant_id, email: rec.email, plan: rec.plan })),
        (CreatePhaseView::AwaitCheckout(rec), ApiEventView::CheckoutReplied(Ok((url, session)))) => {
            let created = TenantRecordView {
                status: "checkout_created"@,
                stripe_checkout_session_id: Some(session),
                ..rec
            };
            (CreatePhaseView::AwaitCheckoutWrite(created, url), ApiActionView::Write(
                settings.tenant_key_prefix + created.tenant_id, created))
        },
        (CreatePhaseView::AwaitCheckout(rec), ApiEventView::CheckoutReplied(Err(message))) =>
            (CreatePhaseView::Finished, ApiActionView::Reply(ApiReplyView::Failed(internal_error_of(message)))),
        (CreatePhaseView::AwaitCheckoutWrite(rec, url), ApiEventView::Written) =>
            (CreatePhaseView::Finished, ApiActionView::Reply(ApiReplyView::Created(created_of(rec, Some(url))))),
        (CreatePhaseView::AwaitPublish(rec), ApiEventView::Published) =>
            (CreatePhaseView::Finished, ApiActionView::Reply(ApiReplyView::Created(created_of(rec, None)))),
        _ => (CreatePhaseView::Finished, ApiActionView::Reply(ApiReplyView::Failed(internal_error_of("unexpected event"@)))),
    }
}

fn created(rec: &TenantRecord, checkout_url: Option<String>) -> (c: CreateTenantResponse)
    ensures
        c@ == created_of(rec@, opt_view(checkout_url)),
{
    CreateTenantResponse {
        tenant_id: copy_str(rec.tenant_id.as_str()),
        status: copy_str(rec.status.as_str()),
        desired_state: copy_str(rec.desired_state.as_str()),
        deployment_mode: copy_str(rec.deployment_mode.as_str()),
        active_deployment_count: rec.active_deployment_count,
        checkout_url: checkout_url,
        api_url: crate::text::copy_opt(&rec.api_url),
        gateway_url: crate::text::copy_opt(&rec.gateway_url),
        console_url: crate::text::copy_opt(&rec.console_url),
    }
}

/// Starts the creation of a tenant with a given id: the new record (see `new_record_of`) is
/// written first.
pub fn start_create_tenant_with_id(settings: &ApiSettings, tenant_id: &str, email: &str, plan: &str) -> (r: (
    CreatePhase,
    ApiAction,
))
    ensures
        r.0@ == CreatePhaseView::AwaitInitialWrite(new_record_of(settings.public_tenant_base_domain@, tenant_id@, email@, plan@)),
        r.1@ == ApiActionView::Write(settings.tenant_key_prefix@ + tenant_id@,
            new_record_of(settings.public_tenant_base_domain@, tenant_id@, email@, plan@)),
{
    let gateway_url = tenant_gateway_url(settings.public_tenant_base_domain.as_str(), tenant_id);
    let console_url = tenant_console_url(settings.public_tenant_base_domain.as_str(), tenant_id);
    let rec = TenantRecord {
        tenant_id: copy_str(tenant_id),
        email: copy_str(email),
        plan: copy_str(plan),
        status: copy_str("provisioning"),
        desired_state: copy_str("active"),
        deployment_mode: copy_str("single"),
        active_deployment_count: 0,
        stripe_checkout_session_id: None,
        stripe_customer_id: None,
        stripe_subscription_id: None,
        api_url: Some(copy_str(gateway_url.as_str())),
        gateway_url: Some(gateway_url),
        console_url: Some(console_url),
        anon_key: None,
        service_key: None,
        dashboard_username: None,
        dashboard_password: None,
    };
    let key = tenant_key(settings.tenant_key_prefix.as_str(), tenant_id);
    let w = rec.duplicate();
    (CreatePhase::AwaitInitialWrite(rec), ApiAction::Write(key, w))
}

/// Starts the creation of a tenant under a fresh random id (see
/// `start_create_tenant_with_id`).
pub fn start_create_tenant(settings: &ApiSettings, email: &str, plan: &str) -> (r: (CreatePhase, ApiAction))
    ensures
        r.0 matches CreatePhase::AwaitInitialWrite(rec) && is_uuid_v4_text(rec.tenant_id@)
            && rec@ == new_record_of(settings.public_tenant_base_domain@, rec.tenant_id@, email@, plan@)
            && r.1@ == ApiActionView::Write(settings.tenant_key_prefix@ + rec.tenant_id@, rec@),
{
    let tenant_id = new_tenant_id();
    start_create_tenant_with_id(settings, tenant_id.as_str(), email, plan)
}

impl CreatePhase {
    /// One step of a creation (see `create_step`).
    pub fn step(self, settings: &ApiSettings, event: ApiEvent) -> (r: (CreatePhase, ApiAction))
        ensures
            (r.0@, r.1@) == create_step(create_settings_of(*settings), self@, event@),
    {
        match (self, event) {
            (CreatePhase::AwaitInitialWrite(rec), ApiEvent::Written) => {
                if str_eq(settings.billing_mode.as_str(), "stripe") {
                    let pending = TenantRecord { status: copy_str("pending_checkout"), ..rec };
                    let key = tenant_key(settings.tenant_key_prefix.as_str(), pending.tenant_id.as_str());
                    let w = pending.duplicate();
                    (CreatePhase::AwaitPendingWrite(pending), ApiAction::Write(key, w))
                } else {
                    let msg = TenantMessage {
                        tenant_id: copy_str(rec.tenant_id.as_str()),
                        contact: Some((copy_str(rec.email.as_str()), copy_str(rec.plan.as_str()))),
                    };
                    let subject = copy_str(settings.provision_request_subject.as_str());
                    (CreatePhase::AwaitPublish(rec), ApiAction::Publish(subject, msg))
                }
            },
            (CreatePhase::AwaitPendingWrite(rec), ApiEvent::Written) => {
                let req = CheckoutRequest {
                    tenant_id: copy_str(rec.tenant_id.as_str()),
                    email: copy_str(rec.email.as_str()),
                    plan: copy_str(rec.plan.as_str()),
                };
                (CreatePhase::AwaitCheckout(rec), ApiAction::RequestCheckout(req))
            },
            (CreatePhase::AwaitCheckout(rec), ApiEvent::CheckoutReplied(Ok(checkout))) => {
                let created = TenantRecord {
                    status: copy_str("checkout_created"),
                    stripe_checkout_session_id: Some(checkout.session_id),
                    ..rec
                };
                let key = tenant_key(settings.tenant_key_prefix.as_str(), created.tenant_id.as_str());
                let w = created.duplicate();
                (CreatePhase::AwaitCheckoutWrite(created, checkout.checkout_url), ApiAction::Write(key, w))
            },
            (CreatePhase::AwaitCheckout(rec), ApiEvent::CheckoutReplied(Err(message))) => {
                (CreatePhase::Finished, ApiAction::Reply(ApiReply::Failed(ApiError::internal(message.as_str()))))
            },
            (CreatePhase::AwaitCheckoutWrite(rec, url), ApiEvent::Written) => {
                (CreatePhase::Finished, ApiAction::Reply(ApiReply::Created(created(&rec, Some(url)))))
            },
            (CreatePhase::AwaitPublish(rec), ApiEvent::Published) => {
                (CreatePhase::Finished, ApiAction::Reply(ApiReply::Created(created(&rec, None))))
            },
            _ => (CreatePhase::Finished, ApiAction::Reply(ApiReply::Failed(ApiError::internal("unexpected event")))),
        }
    }
}

/// Billing's reply to a checkout request: an error it reports becomes
/// `billing service error: {error}`; otherwise the decoded session (or the decoding
/// failure's message).
pub fn checkout_reply_outcome(error: Option<String>, decoded: Result<CheckoutResponse, String>) -> (r: Result<
    CheckoutResponse,
    String,
>)
    ensures
        error matches Some(e) ==> (r matches Err(m) && m@ == "billing service error: "@ + e@),
        error is None ==> r == decoded,
{
    match error {
        Some(e) => Err(concat2("billing service error: ", e.as_str())),
        None => decoded,
    }
}


/// The headers of an admin request that the flow reads.
pub struct AdminHeaders {
    /// The `Authorization` header's text; `None` when it is missing or not visible ASCII.
    pub authorization: Option<String>,
}

/// A lifecycle request on a tenant.
pub struct LifecycleRequest {
    pub tenant_id: String,
    pub action: LifecycleAction,
    /// Whether the route is an admin route.
    pub require_admin_auth: bool,
    pub headers: Option<AdminHeaders>,
}

/// Where a lifecycle request stands.
pub enum LifecyclePhase {
    AwaitRecord,
    AwaitWrite(TenantRecord),
    AwaitPublish(TenantRecord),
    Finished,
}

/// The mathematical value of `LifecyclePhase`.
pub enum LifecyclePhaseView {
    AwaitRecord,
    AwaitWrite(TenantRecordView),
    AwaitPublish(TenantRecordView),
    Finished,
}

impl View for LifecyclePhase {
    type V = LifecyclePhaseView;

    open spec fn view(&self) -> LifecyclePhaseView {
        match self {
            LifecyclePhase::AwaitRecord => LifecyclePhaseView::AwaitRecord,
            LifecyclePhase::AwaitWrite(r) => LifecyclePhaseView::AwaitWrite(r@),
            LifecyclePhase::AwaitPublish(r) => LifecyclePhaseView::AwaitPublish(r@),
            LifecyclePhase::Finished => LifecyclePhaseView::Finished,
        }
    }
}

/// The `Authorization` text of a request; empty when the header is missing.
pub open spec fn authorization_of(h: AdminHeaders) -> Seq<char> {
    match h.authorization {
        Some(a) => a@,
        None => Seq::<char>::empty(),
    }
}

/// The first step of a lifecycle request: an admin route without headers fails with
/// `missing headers`, and one whose token does not match fails with `unauthorized` (both as
/// internal errors, status 500); otherwise the tenant's record is read.
pub open spec fn lifecycle_start(settings: ApiSettings, req: LifecycleRequest) -> (LifecyclePhaseView, ApiActionView) {
    if req.require_admin_auth && req.headers is None {
        (LifecyclePhaseView::Finished, ApiActionView::Reply(ApiReplyView::Failed(internal_error_of("missing headers"@))))
    } else if req.require_admin_auth && !admin_allowed(opt_view(settings.admin_token), authorization_of(req.headers->0)) {
        (LifecyclePhaseView::Finished, ApiActionView::Reply(ApiReplyView::Failed(internal_error_of("unauthorized"@))))
    } else {
        (LifecyclePhaseView::AwaitRecord, ApiActionView::Load(settings.tenant_key_prefix@ + req.tenant_id@))
    }
}

/// The subject a lifecycle request is published on.
pub open spec fn subject_of(subjects: LifecycleSubjects, action: LifecycleAction) -> Seq<char> {
    match action {
        LifecycleAction::Pause => subjects.pause@,
        LifecycleAction::Resume => subjects.resume@,
        LifecycleAction::Delete => subjects.delete@,
        LifecycleAction::Reconcile => subjects.reconcile@,
    }
}

/// The message a lifecycle request publishes: the tenant id, and for a resume also the
/// contact details the provisioner needs to create the stack again.
pub open spec fn lifecycle_message_of(action: LifecycleAction, rec: TenantRecordView) -> TenantMessageView {
    TenantMessageView {
        tenant_id: rec.tenant_id,
        contact: if action == LifecycleAction::Resume { Some((rec.email, rec.plan)) } else { None },
    }
}

/// One step of a lifecycle request: a missing tenant is a 404 `not_found`; a refused
/// request a 409; otherwise the updated record is written, the request published, and the
/// new state acknowledged.
pub open spec fn lifecycle_step(settings: ApiSettings, action: LifecycleAction, phase: LifecyclePhaseView, event: ApiEventView) -> (LifecyclePhaseView, ApiActionView) {
    match (phase, event) {
        (LifecyclePhaseView::AwaitRecord, ApiEventView::Loaded(None)) => (LifecyclePhaseView::Finished,
            ApiActionView::Reply(ApiReplyView::Failed(ApiErrorView { status: 404, error: "not_found"@, message: None }))),
        (LifecyclePhaseView::AwaitRecord, ApiEventView::Loaded(Some(rec))) => {
            if lifecycle_refused(action, rec) {
                (LifecyclePhaseView::Finished, ApiActionView::Reply(ApiReplyView::Failed(
                    ApiErrorView { status: 409, error: error_code_of(409), message: Some(refusal_message()) })))
            } else {
                let next = lifecycle_record(action, rec);
                (LifecyclePhaseView::AwaitWrite(next), ApiActionView::Write(settings.tenant_key_prefix@ + next.tenant_id, next))
            }
        },
        (LifecyclePhaseView::AwaitWrite(rec), ApiEventView::Written) => (LifecyclePhaseView::AwaitPublish(rec),
            ApiActionView::Publish(subject_of(settings.subjects, action), lifecycle_message_of(action, rec))),
        (LifecyclePhaseView::AwaitPublish(rec), ApiEventView::Published) => (LifecyclePhaseView::Finished,
            ApiActionView::Reply(ApiReplyView::Ack(AckResponseView {
                tenant_id: rec.tenant_id,
                status: rec.status,
                desired_state: rec.desired_state,
                active_deployment_count: rec.active_deployment_count,
            }))),
        _ => (LifecyclePhaseView::Finished, ApiActionView::Reply(ApiReplyView::Failed(internal_error_of("unexpected event"@)))),
    }
}

/// Starts a lifecycle request (see `lifecycle_start`).
pub fn start_lifecycle(settings: &ApiSettings, req: &LifecycleRequest) -> (r: (LifecyclePhase, ApiAction))
    ensures
        (r.0@, r.1@) == lifecycle_start(*settings, *req),
{
    if req.require_admin_auth {
        match &req.headers {
            None => {
                return (LifecyclePhase::Finished, ApiAction::Reply(ApiReply::Failed(ApiError::internal("missing headers"))));
            },
            Some(h) => {
                let auth: &str = match &h.authorization {
                    Some(a) => a.as_str(),
                    None => "",
                };
                proof {
                    reveal_strlit("");
                    assert(""@ =~= Seq::<char>::empty());
                    assert(auth@ == authorization_of(*h));
                }
                if require_admin(&settings.admin_token, auth).is_err() {
                    return (LifecyclePhase::Finished, ApiAction::Reply(ApiReply::Failed(ApiError::internal("unauthorized"))));
                }
            },
        }
    }
    let key = tenant_key(settings.tenant_key_prefix.as_str(), req.tenant_id.as_str());
    (LifecyclePhase::AwaitRecord, ApiAction::Load(key))
}

impl LifecyclePhase {
    /// One step of a lifecycle request (see `lifecycle_step`).
    pub fn step(self, settings: &ApiSettings, req: &LifecycleRequest, event: ApiEvent) -> (r: (LifecyclePhase, ApiAction))
        ensures
            (r.0@, r.1@) == lifecycle_step(*settings, req.action, self@, event@),
    {
        match (self, event) {
            (LifecyclePhase::AwaitRecord, ApiEvent::Loaded(None)) => {
                (LifecyclePhase::Finished, ApiAction::Reply(ApiReply::Failed(ApiError::not_found("not_found"))))
            },
            (LifecyclePhase::AwaitRecord, ApiEvent::Loaded(Some(rec))) => {
                match apply_lifecycle_action(req.action, rec) {
                    Err(e) => (LifecyclePhase::Finished, ApiAction::Reply(ApiReply::Failed(e))),
                    Ok(next) => {
                        let key = tenant_key(settings.tenant_key_prefix.as_str(), next.tenant_id.as_str());
                        let w = next.duplicate();
                        (LifecyclePhase::AwaitWrite(next), ApiAction::Write(key, w))
                    },
                }
            },
            (LifecyclePhase::AwaitWrite(rec), ApiEvent::Written) => {
                let subject = copy_str(req.action.subject(&settings.subjects));
                let contact = if req.action == LifecycleAction::Resume {
                    Some((copy_str(rec.email.as_str()), copy_str(rec.plan.as_str())))
                } else {
                    None
                };
                let msg = TenantMessage { tenant_id: copy_str(rec.tenant_id.as_str()), contact: contact };
                (LifecyclePhase::AwaitPublish(rec), ApiAction::Publish(subject, msg))
            },
            (LifecyclePhase::AwaitPublish(rec), ApiEvent::Published) => {
                let ack = AckResponse {
                    tenant_id: rec.tenant_id,
                    status: rec.status,
                    desired_state: rec.desired_state,
                    active_deployment_count: rec.active_deployment_count,
                };
                (LifecyclePhase::Finished, ApiAction::Reply(ApiReply::Ack(ack)))
            },
            _ => (LifecyclePhase::Finished, ApiAction::Reply(ApiReply::Failed(ApiError::internal("unexpected event")))),
        }
    }
}

/// The answer to a read of a tenant: the record, or a 404 `not_found`.
pub enum GetTenantReply {
    Found(TenantRecord),
    NotFound(ApiError),
}

/// Answers a read of a tenant from what the store holds.
pub fn get_tenant_reply(found: Option<TenantRecord>) -> (r: GetTenantReply)
    ensures
        found matches Some(rec) ==> (r matches GetTenantReply::Found(x) && x@ == rec@),
        found is None ==> (r matches GetTenantReply::NotFound(e) && e.status == 404 && e.error@ == "not_found"@
            && e.message is None),
{
    match found {
        Some(rec) => GetTenantReply::Found(rec),
        None => GetTenantReply::NotFound(ApiError::not_found("not_found")),
    }
}


/// The lifecycle routes of the platform API.
#[derive(Clone, Copy, PartialEq, Eq, Structural)]
pub enum LifecycleRoute {
    /// `POST /v1/tenants/{id}/pause`.
    Pause,
    /// `POST /v1/tenants/{id}/resume`.
    Resume,
    /// `DELETE /v1/tenants/{id}`.
    Delete,
    /// `POST /v1/admin/tenants/{id}/pause`.
    AdminPause,
    /// `POST /v1/admin/tenants/{id}/resume`.
    AdminResume,
    /// `DELETE /v1/admin/tenants/{id}`.
    AdminDelete,
    /// `POST /v1/admin/tenants/{id}/reconcile`.
    AdminReconcile,
    /// `POST /v1/admin/tenants/{id}/deprovision`: the older name of an admin pause.
    AdminDeprovision,
}

/// The request a route makes: the tenant routes need no token, the admin routes do; a
/// deprovision is a pause.
pub open spec fn route_request_of(route: LifecycleRoute) -> (LifecycleAction, bool) {
    match route {
        LifecycleRoute::Pause => (LifecycleAction::Pause, false),
        LifecycleRoute::Resume => (LifecycleAction::Resume, false),
        LifecycleRoute::Delete => (LifecycleAction::Delete, false),
        LifecycleRoute::AdminPause => (LifecycleAction::Pause, true),
        LifecycleRoute::AdminResume => (LifecycleAction::Resume, true),
        LifecycleRoute::AdminDelete => (LifecycleAction::Delete, true),
        LifecycleRoute::AdminReconcile => (LifecycleAction::Reconcile, true),
        LifecycleRoute::AdminDeprovision => (LifecycleAction::Pause, true),
    }
}

/// The lifecycle request of a route on a tenant (see `route_request_of`); the tenant
/// routes carry no headers.
pub fn lifecycle_request(route: LifecycleRoute, tenant_id: String, headers: AdminHeaders) -> (r: LifecycleRequest)
    ensures
        r.tenant_id == tenant_id,
        (r.action, r.require_admin_auth) == route_request_of(route),
        r.require_admin_auth ==> r.headers == Some(headers),
        !r.require_admin_auth ==> r.headers is None,
{
    let (action, admin) = match route {
        LifecycleRoute::Pause => (LifecycleAction::Pause, false),
        LifecycleRoute::Resume => (LifecycleAction::Resume, false),
        LifecycleRoute::Delete => (LifecycleAction::Delete, false),
        LifecycleRoute::AdminPause => (LifecycleAction::Pause, true),
        LifecycleRoute::AdminResume => (LifecycleAction::Resume, true),
        LifecycleRoute::AdminDelete => (LifecycleAction::Delete, true),
        LifecycleRoute::AdminReconcile => (LifecycleAction::Reconcile, true),
        LifecycleRoute::AdminDeprovision => (LifecycleAction::Pause, true),
    };
    LifecycleRequest {
        tenant_id: tenant_id,
        action: action,
        require_admin_auth: admin,
        headers: if admin { Some(headers) } else { None },
    }
}

} // verus!
