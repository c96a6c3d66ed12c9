//! The component's request handling as a state machine. `start_request` takes the routed
//! request; `ComponentPhase::step` takes what the host reports (the request body, a record
//! read, a write or publish done, billing's answer) and gives the next action, until the
//! request is answered. A creation draws a fresh random tenant id itself.

use vstd::prelude::*;
use crate::text::{concat4, copy_opt, copy_str, opt_view, str_eq};
use crate::ids::{is_uuid_v4_text, new_tenant_id};
use crate::component::config::tenant_key;
use crate::component::routes::{ComponentRoute, ComponentRouteView};
use crate::platform_api::messages::{TenantMessage, TenantMessageView};
use crate::billing::checkout::{CheckoutRequest, CheckoutRequestView, CheckoutResponse};

verus! {

/// A tenant's record as the component stores it.
pub struct TenantRecord {
    pub tenant_id: String,
    pub email: String,
    pub plan: String,
    pub status: String,
    pub stripe_checkout_session_id: Option<String>,
    pub api_url: Option<String>,
    pub anon_key: Option<String>,
    pub service_key: Option<String>,
    pub dashboard_username: Option<String>,
    pub dashboard_password: Option<String>,
}

/// The mathematical value of a `TenantRecord`.
pub struct TenantRecordView {
    pub tenant_id: Seq<char>,
    pub email: Seq<char>,
    pub plan: Seq<char>,
    pub status: Seq<char>,
    pub stripe_checkout_session_id: Option<Seq<char>>,
    pub api_url: Option<Seq<char>>,
    pub anon_key: Option<Seq<char>>,
    pub service_key: Option<Seq<char>>,
    pub dashboard_username: Option<Seq<char>>,
    pub dashboard_password: Option<Seq<char>>,
}

impl View for TenantRecord {
    type V = TenantRecordView;

    open spec fn view(&self) -> TenantRecordView {
        TenantRecordView {
            tenant_id: self.tenant_id@,
            email: self.email@,
            plan: self.plan@,
            status: self.status@,
            stripe_checkout_session_id: opt_view(self.stripe_checkout_session_id),
            api_url: opt_view(self.api_url),
            anon_key: opt_view(self.anon_key),
            service_key: opt_view(self.service_key),
            dashboard_username: opt_view(self.dashboard_username),
            dashboard_password: opt_view(self.dashboard_password),
        }
    }
}

impl TenantRecord {
    /// A field-by-field copy of the record.
    pub fn duplicate(&self) -> (r: TenantRecord)
        ensures
            r@ == self@,
    {
        TenantRecord {
            tenant_id: copy_str(self.tenant_id.as_str()),
            email: copy_str(self.email.as_str()),
            plan: copy_str(self.plan.as_str()),
            status: copy_str(self.status.as_str()),
            stripe_checkout_session_id: copy_opt(&self.stripe_checkout_session_id),
            api_url: copy_opt(&self.api_url),
            anon_key: copy_opt(&self.anon_key),
            service_key: copy_opt(&self.service_key),
            dashboard_username: copy_opt(&self.dashboard_username),
            dashboard_password: copy_opt(&self.dashboard_password),
        }
    }
}

/// The component's configuration that request handling reads.
pub struct ComponentSettings {
    pub tenant_key_prefix: String,
    pub public_base_domain: String,
    /// `stripe` sends new tenants through checkout; anything else provisions directly.
    pub billing_mode: String,
    pub provision_subject: String,
    pub deprovision_subject: String,
    pub reconcile_subject: String,
}

/// An admin operation on a tenant.
#[derive(Clone, Copy, PartialEq, Eq, Structural)]
pub enum AdminOp {
    Reconcile,
    Deprovision,
}

/// A JSON answer body.
pub enum ComponentBody {
    /// `{"error": code}`.
    Error(String),
    /// `{"error": "internal_error", "message": message}`.
    Internal(String),
    /// `{"tenant_id", "checkout_url", "status"}`.
    CheckoutCreated(String, String, String),
    /// `{"tenant_id", "status", "api_url"}`.
    ProvisioningStarted(String, String, String),
    /// The tenant as read: id, email, plan, status, API URL, keys and dashboard login.
    Tenant(TenantRecord),
    /// `{"tenant_id", "status"}`.
    StatusChanged(String, String),
}

/// The mathematical value of `ComponentBody`.
pub enum ComponentBodyView {
    Error(Seq<char>),
    Internal(Seq<char>),
    CheckoutCreated(Seq<char>, Seq<char>, Seq<char>),
    ProvisioningStarted(Seq<char>, Seq<char>, Seq<char>),
    Tenant(TenantRecordView),
    StatusChanged(Seq<char>, Seq<char>),
}

impl View for ComponentBody {
    type V = ComponentBodyView;

    open spec fn view(&self) -> ComponentBodyView {
        match self {
            ComponentBody::Error(c) => ComponentBodyView::Error(c@),
            ComponentBody::Internal(m) => ComponentBodyView::Internal(m@),
            ComponentBody::CheckoutCreated(a, b, c) => ComponentBodyView::CheckoutCreated(a@, b@, c@),
            ComponentBody::ProvisioningStarted(a, b, c) => ComponentBodyView::ProvisioningStarted(a@, b@, c@),
            ComponentBody::Tenant(r) => ComponentBodyView::Tenant(r@),
            ComponentBody::StatusChanged(a, b) => ComponentBodyView::StatusChanged(a@, b@),
        }
    }
}

/// An answer: plain text or JSON, with a status.
pub enum ComponentReply {
    Text(u16, String),
    Json(u16, ComponentBody),
}

/// The mathematical value of `ComponentReply`.
pub enum ComponentReplyView {
    Text(u16, Seq<char>),
    Json(u16, ComponentBodyView),
}

impl View for ComponentReply {
    type V = ComponentReplyView;

    open spec fn view(&self) -> ComponentReplyView {
        match self {
            ComponentReply::Text(s, t) => ComponentReplyView::Text(*s, t@),
            ComponentReply::Json(s, b) => ComponentReplyView::Json(*s, b@),
        }
    }
}

/// What the component asks the host to do next.
pub enum ComponentAction {
    /// Read the request body as `{email, plan}`.
    ReadCreateBody,
    /// Read the record under this key.
    Get(String),
    /// Store this record under this key.
    Put(String, TenantRecord),
    /// Publish this message on this subject.
    Publish(String, TenantMessage),
    /// Ask billing for a checkout session.
    RequestCheckout(CheckoutRequest),
    /// Answer; the request is handled.
    Reply(ComponentReply),
}

/// The mathematical value of `ComponentAction`.
pub enum ComponentActionView {
    ReadCreateBody,
    Get(Seq<char>),
    Put(Seq<char>, TenantRecordView),
    Publish(Seq<char>, TenantMessageView),
    RequestCheckout(CheckoutRequestView),
    Reply(ComponentReplyView),
}

impl View for ComponentAction {
    type V = ComponentActionView;

    open spec fn view(&self) -> ComponentActionView {
        match self {
            ComponentAction::ReadCreateBody => ComponentActionView::ReadCreateBody,
            ComponentAction::Get(k) => ComponentActionView::Get(k@),
            ComponentAction::Put(k, r) => ComponentActionView::Put(k@, r@),
            ComponentAction::Publish(s, m) => ComponentActionView::Publish(s@, m@),
            ComponentAction::RequestCheckout(c) => ComponentActionView::RequestCheckout(c@),
            ComponentAction::Reply(r) => ComponentActionView::Reply(r@),
        }
    }
}

/// What the host reports back.
pub enum ComponentEvent {
    /// The creation body, or `None` when it is not `{email, plan}` JSON.
    CreateBody(Option<(String, String)>),
    /// The record read; `None` when there is none.
    Fetched(Option<TenantRecord>),
    /// The record was stored.
    Stored,
    /// The message was published.
    Published,
    /// Billing's answer: a session, or the failure's message.
    CheckoutReplied(Result<CheckoutResponse, String>),
}

/// The mathematical value of `ComponentEvent`.
pub enum ComponentEventView {
    CreateBody(Option<(Seq<char>, Seq<char>)>),
    Fetched(Option<TenantRecordView>),
    Stored,
    Published,
    CheckoutReplied(Result<(Seq<char>, Seq<char>), Seq<char>>),
}

impl View for ComponentEvent {
    type V = ComponentEventView;

    open spec fn view(&self) -> ComponentEventView {
        match self {
            ComponentEvent::CreateBody(Some((e, p))) => ComponentEventView::CreateBody(Some((e@, p@))),
            ComponentEvent::CreateBody(None) => ComponentEventView::CreateBody(None),
            ComponentEvent::Fetched(Some(r)) => ComponentEventView::Fetched(Some(r@)),
            ComponentEvent::Fetched(None) => ComponentEventView::Fetched(None),
            ComponentEvent::Stored => ComponentEventView::Stored,
            ComponentEvent::Published => ComponentEventView::Published,
            ComponentEvent::CheckoutReplied(Ok(c)) => ComponentEventView::CheckoutReplied(Ok((c.checkout_url@, c.session_id@))),
            ComponentEvent::CheckoutReplied(Err(m)) => ComponentEventView::CheckoutReplied(Err(m@)),
        }
    }
}

/// Where a request stands.
pub enum ComponentPhase {
    AwaitCreateBody,
    AwaitInitialPut(TenantRecord),
    AwaitPendingPut(TenantRecord),
    AwaitCheckout(TenantRecord),
    AwaitCheckoutPut(TenantRecord, String),
    AwaitProvisionPublish(TenantRecord),
    AwaitDirectPut(TenantRecord),
    AwaitTenant(String),
    AwaitAdminTenant(AdminOp, String),
    AwaitAdminPut(AdminOp, String, TenantRecord),
    AwaitAdminPublish(String, TenantRecord),
    Finished,
}

/// The mathematical value of `ComponentPhase`.
pub enum ComponentPhaseView {
    AwaitCreateBody,
    AwaitInitialPut(TenantRecordView),
    AwaitPendingPut(TenantRecordView),
    AwaitCheckout(TenantRecordView),
    AwaitCheckoutPut(TenantRecordView, Seq<char>),
    AwaitProvisionPublish(TenantRecordView),
    AwaitDirectPut(TenantRecordView),
    AwaitTenant(Seq<char>),
    AwaitAdminTenant(AdminOp, Seq<char>),
    AwaitAdminPut(AdminOp, Seq<char>, TenantRecordView),
    AwaitAdminPublish(Seq<char>, TenantRecordView),
    Finished,
}

impl View for ComponentPhase {
    type V = ComponentPhaseView;

    open spec fn view(&self) -> ComponentPhaseView {
        match self {
            ComponentPhase::AwaitCreateBody => ComponentPhaseView::AwaitCreateBody,
            ComponentPhase::AwaitInitialPut(r) => ComponentPhaseView::AwaitInitialPut(r@),
            ComponentPhase::AwaitPendingPut(r) => ComponentPhaseView::AwaitPendingPut(r@),
            ComponentPhase::AwaitCheckout(r) => ComponentPhaseView::AwaitCheckout(r@),
            ComponentPhase::AwaitCheckoutPut(r, u) => ComponentPhaseView::AwaitCheckoutPut(r@, u@),
            ComponentPhase::AwaitProvisionPublish(r) => ComponentPhaseView::AwaitProvisionPublish(r@),
            ComponentPhase::AwaitDirectPut(r) => ComponentPhaseView::AwaitDirectPut(r@),
            ComponentPhase::AwaitTenant(id) => ComponentPhaseView::AwaitTenant(id@),
            ComponentPhase::AwaitAdminTenant(op, id) => ComponentPhaseView::AwaitAdminTenant(*op, id@),
            ComponentPhase::AwaitAdminPut(op, id, r) => ComponentPhaseView::AwaitAdminPut(*op, id@, r@),
            ComponentPhase::AwaitAdminPublish(id, r) => ComponentPhaseView::AwaitAdminPublish(id@, r@),
            ComponentPhase::Finished => ComponentPhaseView::Finished,
        }
    }
}

/// A JSON error answer `{"error": code}`.
pub open spec fn error_reply(status: u16, code: Seq<char>) -> ComponentActionView {
    ComponentActionView::Reply(ComponentReplyView::Json(status, ComponentBodyView::Error(code)))
}

/// A 500 answer `{"error": "internal_error", "message": message}`.
pub open spec fn internal_reply(message: Seq<char>) -> ComponentActionView {
    ComponentActionView::Reply(ComponentReplyView::Json(500, ComponentBodyView::Internal(message)))
}

/// `http://{tenant_id}.{base_domain}`.
pub open spec fn tenant_api_url(base_domain: Seq<char>, tenant_id: Seq<char>) -> Seq<char> {
    "http://"@ + tenant_id + "."@ + base_domain
}

/// The first step of a routed request.
pub open spec fn component_start(settings: ComponentSettings, route: ComponentRouteView) -> (ComponentPhaseView, ComponentActionView) {
    match route {
        ComponentRouteView::Health => (ComponentPhaseView::Finished,
            ComponentActionView::Reply(ComponentReplyView::Text(200, "ok"@))),
        ComponentRouteView::CreateTenant => (ComponentPhaseView::AwaitCreateBody, ComponentActionView::ReadCreateBody),
        ComponentRouteView::GetTenant(id) => (ComponentPhaseView::AwaitTenant(id),
            ComponentActionView::Get(settings.tenant_key_prefix@ + id)),
        ComponentRouteView::AdminReconcile(id) => (ComponentPhaseView::AwaitAdminTenant(AdminOp::Reconcile, id),
            ComponentActionView::Get(settings.tenant_key_prefix@ + id)),
        ComponentRouteView::AdminDeprovision(id) => (ComponentPhaseView::AwaitAdminTenant(AdminOp::Deprovision, id),
            ComponentActionView::Get(settings.tenant_key_prefix@ + id)),
        ComponentRouteView::BadRequest => (ComponentPhaseView::Finished, error_reply(400, "bad_request"@)),
        ComponentRouteView::Unauthorized => (ComponentPhaseView::Finished, error_reply(401, "unauthorized"@)),
        ComponentRouteView::NotFound => (ComponentPhaseView::Finished, error_reply(404, "not_found"@)),
    }
}

/// The status an admin operation marks a tenant with.
pub open spec fn admin_status(op: AdminOp) -> Seq<char> {
    match op {
        AdminOp::Reconcile => "reconciling"@,
        AdminOp::Deprovision => "deprovisioning"@,
    }
}

/// The subject an admin operation is published on.
pub open spec fn admin_subject(settings: ComponentSettings, op: AdminOp) -> Seq<char> {
    match op {
        AdminOp::Reconcile => settings.reconcile_subject@,
        AdminOp::Deprovision => settings.deprovision_subject@,
    }
}

/// The record of a newly created tenant: `provisioning`, with nothing else known yet.
pub open spec fn created_record(tenant_id: Seq<char>, email: Seq<char>, plan: Seq<char>) -> TenantRecordView {
    TenantRecordView {
        tenant_id: tenant_id,
        email: email,
        plan: plan,
        status: "provisioning"@,
        stripe_checkout_session_id: None,
        api_url: None,
        anon_key: None,
        service_key: None,
        dashboard_username: None,
        dashboard_password: None,
    }
}

/// One step of a request, where `fresh_id` is the tenant id a creation uses (it plays no
/// part in any other step). Creation writes the new record under that id, then either (Stripe billing)
/// marks it `pending_checkout`, asks billing for a session and records it as
/// `checkout_created`, answering with the checkout URL; or (direct billing) publishes a
/// provisioning request, writes it `provisioning` again and answers with the tenant's API
/// URL. A read answers the record, with the API URL defaulting to the tenant's host. An
/// admin operation marks the record and publishes the operation. A missing tenant is a 404;
/// a body that is not `{email, plan}`, or a billing failure, is an internal error.
pub open spec fn component_step(settings: ComponentSettings, phase: ComponentPhaseView, event: ComponentEventView, fresh_id: Seq<char>) -> (ComponentPhaseView, ComponentActionView) {
    let prefix = settings.tenant_key_prefix@;
    match (phase, event) {
        (ComponentPhaseView::AwaitCreateBody, ComponentEventView::CreateBody(None)) =>
            (ComponentPhaseView::Finished, internal_reply("invalid JSON body (expected {email, plan})"@)),
        (ComponentPhaseView::AwaitCreateBody, ComponentEventView::CreateBody(Some((email, plan)))) => {
            let rec = created_record(fresh_id, email, plan);
            (ComponentPhaseView::AwaitInitialPut(rec), ComponentActionView::Put(prefix + fresh_id, rec))
        },
        (ComponentPhaseView::AwaitInitialPut(rec), ComponentEventView::Stored) => {
            if settings.billing_mode@ == "stripe"@ {
                let pending = TenantRecordView { status: "pending_checkout"@, ..rec };
                (ComponentPhaseView::AwaitPendingPut(pending), ComponentActionView::Put(prefix + rec.tenant_id, pending))
            } else {
                (ComponentPhaseView::AwaitProvisionPublish(rec), ComponentActionView::Publish(settings.provision_subject@,
                    TenantMessageView { tenant_id: rec.tenant_id, contact: Some((rec.email, rec.plan)) }))
            }
        },
        (ComponentPhaseView::AwaitPendingPut(rec), ComponentEventView::Stored) => (ComponentPhaseView::AwaitCheckout(rec),
            ComponentActionView::RequestCheckout(CheckoutRequestView { tenant_id: rec.tenant_id, email: rec.email, plan: rec.plan })),
        (ComponentPhaseView::AwaitCheckout(rec), ComponentEventView::CheckoutReplied(Ok((url, session)))) => {
            let created = TenantRecordView { status: "checkout_created"@, stripe_checkout_session_id: Some(session), ..rec };
            (ComponentPhaseView::AwaitCheckoutPut(created, url), ComponentActionView::Put(prefix + rec.tenant_id, created))
        },
        (ComponentPhaseView::AwaitCheckout(rec), ComponentEventView::CheckoutReplied(Err(message))) =>
            (ComponentPhaseView::Finished, internal_reply(message)),
        (ComponentPhaseView::AwaitCheckoutPut(rec, url), ComponentEventView::Stored) => (ComponentPhaseView::Finished,
            ComponentActionView::Reply(ComponentReplyView::Json(200, ComponentBodyView::CheckoutCreated(rec.tenant_id, url, rec.status)))),
        (ComponentPhaseView::AwaitProvisionPublish(rec), ComponentEventView::Published) => {
            let again = TenantRecordView { status: "provisioning"@, ..rec };
            (ComponentPhaseView::AwaitDirectPut(again), ComponentActionView::Put(prefix + rec.tenant_id, again))
        },
        (ComponentPhaseView::AwaitDirectPut(rec), ComponentEventView::Stored) => (ComponentPhaseView::Finished,
            ComponentActionView::Reply(ComponentReplyView::Json(200, ComponentBodyView::ProvisioningStarted(rec.tenant_id,
                rec.status, tenant_api_url(settings.public_base_domain@, rec.tenant_id))))),
        (ComponentPhaseView::AwaitTenant(id), ComponentEventView::Fetched(None)) => (ComponentPhaseView::Finished,
            error_reply(404, "not_found"@)),
        (ComponentPhaseView::AwaitTenant(id), ComponentEventView::Fetched(Some(rec))) => {
            let shown = TenantRecordView {
                api_url: Some(match rec.api_url { Some(u) => u, None => tenant_api_url(settings.public_base_domain@, id) }),
                ..rec
            };
            (ComponentPhaseView::Finished, ComponentActionView::Reply(ComponentReplyView::Json(200, ComponentBodyView::Tenant(shown))))
        },
        (ComponentPhaseView::AwaitAdminTenant(op, id), ComponentEventView::Fetched(None)) => (ComponentPhaseView::Finished,
            error_reply(404, "not_found"@)),
        (ComponentPhaseView::AwaitAdminTenant(op, id), ComponentEventView::Fetched(Some(rec))) => {
            let marked = TenantRecordView { status: admin_status(op), ..rec };
            (ComponentPhaseView::AwaitAdminPut(op, id, marked), ComponentActionView::Put(prefix + rec.tenant_id, marked))
        },
        (ComponentPhaseView::AwaitAdminPut(op, id, rec), ComponentEventView::Stored) => (ComponentPhaseView::AwaitAdminPublish(id, rec),
            ComponentActionView::Publish(admin_subject(settings, op), TenantMessageView { tenant_id: id, contact: None })),
        (ComponentPhaseView::AwaitAdminPublish(id, rec), ComponentEventView::Published) => (ComponentPhaseView::Finished,
            ComponentActionView::Reply(ComponentReplyView::Json(200, ComponentBodyView::StatusChanged(id, rec.status)))),
        _ => (ComponentPhaseView::Finished, internal_reply("unexpected event"@)),
    }
}

/// Whether the step creates a tenant: a valid creation body has just been read.
pub open spec fn creates_tenant(phase: ComponentPhaseView, event: ComponentEventView) -> bool {
    phase matches ComponentPhaseView::AwaitCreateBody && event matches ComponentEventView::CreateBody(Some(_))
}

fn error_action(status: u16, code: &str) -> (a: ComponentAction)
    ensures
        a@ == error_reply(status, code@),
{
    ComponentAction::Reply(ComponentReply::Json(status, ComponentBody::Error(copy_str(code))))
}

fn internal_action(message: &str) -> (a: ComponentAction)
    ensures
        a@ == internal_reply(message@),
{
    ComponentAction::Reply(ComponentReply::Json(500, ComponentBody::Internal(copy_str(message))))
}

/// Starts handling a routed request (see `component_start`).
pub fn start_request(settings: &ComponentSettings, route: ComponentRoute) -> (r: (ComponentPhase, ComponentAction))
    ensures
        (r.0@, r.1@) == component_start(*settings, route@),
{
    match route {
        ComponentRoute::Health => (ComponentPhase::Finished, ComponentAction::Reply(ComponentReply::Text(200, copy_str("ok")))),
        ComponentRoute::CreateTenant => (ComponentPhase::AwaitCreateBody, ComponentAction::ReadCreateBody),
        ComponentRoute::GetTenant(id) => {
            let key = tenant_key(settings.tenant_key_prefix.as_str(), id.as_str());
            (ComponentPhase::AwaitTenant(id), ComponentAction::Get(key))
        },
        ComponentRoute::AdminReconcile(id) => {
            let key = tenant_key(settings.tenant_key_prefix.as_str(), id.as_str());
            (ComponentPhase::AwaitAdminTenant(AdminOp::Reconcile, id), ComponentAction::Get(key))
        },
        ComponentRoute::AdminDeprovision(id) => {
            let key = tenant_key(settings.tenant_key_prefix.as_str(), id.as_str());
            (ComponentPhase::AwaitAdminTenant(AdminOp::Deprovision, id), ComponentAction::Get(key))
        },
        ComponentRoute::BadRequest => (ComponentPhase::Finished, error_action(400, "bad_request")),
        ComponentRoute::Unauthorized => (ComponentPhase::Finished, error_action(401, "unauthorized")),
        ComponentRoute::NotFound => (ComponentPhase::Finished, error_action(404, "not_found")),
    }
}

impl ComponentPhase {
    /// One step of a request (see `component_step`).
    pub fn step(self, settings: &ComponentSettings, event: ComponentEvent) -> (r: (ComponentPhase, ComponentAction))
        ensures
            creates_tenant(self@, event@) ==> (r.0 matches ComponentPhase::AwaitInitialPut(rec)
                && is_uuid_v4_text(rec.tenant_id@)
                && (r.0@, r.1@) == component_step(*settings, self@, event@, rec.tenant_id@)),
            !creates_tenant(self@, event@) ==> (r.0@, r.1@) == component_step(*settings, self@, event@, Seq::<char>::empty()),
    {
        if matches!((&self, &event), (ComponentPhase::AwaitCreateBody, ComponentEvent::CreateBody(Some(_)))) {
            let id = new_tenant_id();
            self.step_with_id(settings, event, id)
        } else {
            self.step_with_id(settings, event, String::new())
        }
    }

    /// One step of a request (see `component_step`), a creation using `fresh_id`.
    pub fn step_with_id(self, settings: &ComponentSettings, event: ComponentEvent, fresh_id: String) -> (r: (ComponentPhase, ComponentAction))
        ensures
            (r.0@, r.1@) == component_step(*settings, self@, event@, fresh_id@),
    {
        let prefix = settings.tenant_key_prefix.as_str();
        match (self, event) {
            (ComponentPhase::AwaitCreateBody, ComponentEvent::CreateBody(None)) => {
                (ComponentPhase::Finished, internal_action("invalid JSON body (expected {email, plan})"))
            },
            (ComponentPhase::AwaitCreateBody, ComponentEvent::CreateBody(Some((email, plan)))) => {
                let key = tenant_key(prefix, fresh_id.as_str());
                let rec = TenantRecord {
                    tenant_id: fresh_id,
                    email: email,
                    plan: plan,
                    status: copy_str("provisioning"),
                    stripe_checkout_session_id: None,
                    api_url: None,
                    anon_key: None,
                    service_key: None,
                    dashboard_username: None,
                    dashboard_password: None,
                };
                let w = rec.duplicate();
                (ComponentPhase::AwaitInitialPut(rec), ComponentAction::Put(key, w))
            },
            (ComponentPhase::AwaitInitialPut(rec), ComponentEvent::Stored) => {
                if str_eq(settings.billing_mode.as_str(), "stripe") {
                    let key = tenant_key(prefix, rec.tenant_id.as_str());
                    let pending = TenantRecord { status: copy_str("pending_checkout"), ..rec };
                    let w = pending.duplicate();
                    (ComponentPhase::AwaitPendingPut(pending), ComponentAction::Put(key, w))
                } else {
                    let msg = TenantMessage {
                        tenant_id: copy_str(rec.tenant_id.as_str()),
                        contact: Some((copy_str(rec.email.as_str()), copy_str(rec.plan.as_str()))),
                    };
                    let subject = copy_str(settings.provision_subject.as_str());
                    (ComponentPhase::AwaitProvisionPublish(rec), ComponentAction::Publish(subject, msg))
                }
            },
            (ComponentPhase::AwaitPendingPut(rec), ComponentEvent::Stored) => {
                let req = CheckoutRequest {
                    tenant_id: copy_str(rec.tenant_id.as_str()),
                    email: copy_str(rec.email.as_str()),
                    plan: copy_str(rec.plan.as_str()),
                };
                (ComponentPhase::AwaitCheckout(rec), ComponentAction::RequestCheckout(req))
            },
            (ComponentPhase::AwaitCheckout(rec), ComponentEvent::CheckoutReplied(Ok(checkout))) => {
                let key = tenant_key(prefix, rec.tenant_id.as_str());
                let created = TenantRecord {
                    status: copy_str("checkout_created"),
                    stripe_checkout_session_id: Some(checkout.session_id),
                    ..rec
                };
                let w = created.duplicate();
                (ComponentPhase::AwaitCheckoutPut(created, checkout.checkout_url), ComponentAction::Put(key, w))
            },
            (ComponentPhase::AwaitCheckout(rec), ComponentEvent::CheckoutReplied(Err(message))) => {
                (ComponentPhase::Finished, internal_action(message.as_str()))
            },
            (ComponentPhase::AwaitCheckoutPut(rec, url), ComponentEvent::Stored) => {
                (ComponentPhase::Finished, ComponentAction::Reply(ComponentReply::Json(200,
                    ComponentBody::CheckoutCreated(rec.tenant_id, url, rec.status))))
            },
            (ComponentPhase::AwaitProvisionPublish(rec), ComponentEvent::Published) => {
                let key = tenant_key(prefix, rec.tenant_id.as_str());
                let again = TenantRecord { status: copy_str("provisioning"), ..rec };
                let w = again.duplicate();
                (ComponentPhase::AwaitDirectPut(again), ComponentAction::Put(key, w))
            },
            (ComponentPhase::AwaitDirectPut(rec), ComponentEvent::Stored) => {
                let url = concat4("http://", rec.tenant_id.as_str(), ".", settings.public_base_domain.as_str());
                (ComponentPhase::Finished, ComponentAction::Reply(ComponentReply::Json(200,
                    ComponentBody::ProvisioningStarted(rec.tenant_id, rec.status, url))))
            },
            (ComponentPhase::AwaitTenant(id), ComponentEvent::Fetched(None)) => {
                (ComponentPhase::Finished, error_action(404, "not_found"))
            },
            (ComponentPhase::AwaitTenant(id), ComponentEvent::Fetched(Some(rec))) => {
                let url = match rec.api_url {
                    Some(u) => u,
                    None => concat4("http://", id.as_str(), ".", settings.public_base_domain.as_str()),
                };
                let shown = TenantRecord { api_url: Some(url), ..rec };
                (ComponentPhase::Finished, ComponentAction::Reply(ComponentReply::Json(200, ComponentBody::Tenant(shown))))
            },
            (ComponentPhase::AwaitAdminTenant(op, id), ComponentEvent::Fetched(None)) => {
                (ComponentPhase::Finished, error_action(404, "not_found"))
            },
            (ComponentPhase::AwaitAdminTenant(op, id), ComponentEvent::Fetched(Some(rec))) => {
                let key = tenant_key(prefix, rec.tenant_id.as_str());
                let status = match op {
                    AdminOp::Reconcile => copy_str("reconciling"),
                    AdminOp::Deprovision => copy_str("deprovisioning"),
                };
                let marked = TenantRecord { status: status, ..rec };
                let w = marked.duplicate();
                (ComponentPhase::AwaitAdminPut(op, id, marked), ComponentAction::Put(key, w))
            },
            (ComponentPhase::AwaitAdminPut(op, id, rec), ComponentEvent::Stored) => {
                let subject = match op {
                    AdminOp::Reconcile => copy_str(settings.reconcile_subject.as_str()),
                    AdminOp::Deprovision => copy_str(settings.deprovision_subject.as_str()),
                };
                let msg = TenantMessage { tenant_id: copy_str(id.as_str()), contact: None };
                (ComponentPhase::AwaitAdminPublish(id, rec), ComponentAction::Publish(subject, msg))
            },
            (ComponentPhase::AwaitAdminPublish(id, rec), ComponentEvent::Published) => {
                (ComponentPhase::Finished, ComponentAction::Reply(ComponentReply::Json(200,
                    ComponentBody::StatusChanged(id, rec.status))))
            },
            _ => (ComponentPhase::Finished, internal_action("unexpected event")),
        }
    }
}

} // verus!
