//! What the platform API sends and answers, and what its flows ask the service to do.

use vstd::prelude::*;
use crate::text::opt_view;
use crate::platform_api::record::{TenantRecord, TenantRecordView};
use crate::platform_api::errors::ApiError;
use crate::billing::checkout::{CheckoutRequest, CheckoutRequestView, CheckoutResponse};

verus! {

/// A message published to the provisioner about a tenant.
pub struct TenantMessage {
    pub tenant_id: String,
    /// Contact details, sent along when the provisioner may need to create the tenant's
    /// stack: `(email, plan)`.
    pub contact: Option<(String, String)>,
}

/// The mathematical value of `TenantMessage`.
pub struct TenantMessageView {
    pub tenant_id: Seq<char>,
    pub contact: Option<(Seq<char>, Seq<char>)>,
}

impl View for TenantMessage {
    type V = TenantMessageView;

    open spec fn view(&self) -> TenantMessageView {
        TenantMessageView {
            tenant_id: self.tenant_id@,
            contact: match self.contact {
                Some((e, p)) => Some((e@, p@)),
                None => None,
            },
        }
    }
}

/// The answer to a tenant creation.
pub struct CreateTenantResponse {
    pub tenant_id: String,
    pub status: String,
    pub desired_state: String,
    pub deployment_mode: String,
    pub active_deployment_count: u8,
    /// Present when billing is done through Stripe checkout.
    pub checkout_url: Option<String>,
    pub api_url: Option<String>,
    pub gateway_url: Option<String>,
    pub console_url: Option<String>,
}

/// The mathematical value of `CreateTenantResponse`.
pub struct CreateTenantResponseView {
    pub tenant_id: Seq<char>,
    pub status: Seq<char>,
    pub desired_state: Seq<char>,
    pub deployment_mode: Seq<char>,
    pub active_deployment_count: u8,
    pub checkout_url: Option<Seq<char>>,
    pub api_url: Option<Seq<char>>,
    pub gateway_url: Option<Seq<char>>,
    pub console_url: Option<Seq<char>>,
}

impl View for CreateTenantResponse {
    type V = CreateTenantResponseView;

    open spec fn view(&self) -> CreateTenantResponseView {
        CreateTenantResponseView {
            tenant_id: self.tenant_id@,
            status: self.status@,
            desired_state: self.desired_state@,
            deployment_mode: self.deployment_mode@,
            active_deployment_count: self.active_deployment_count,
            checkout_url: opt_view(self.checkout_url),
            api_url: opt_view(self.api_url),
            gateway_url: opt_view(self.gateway_url),
            console_url: opt_view(self.console_url),
        }
    }
}

/// The answer to an accepted lifecycle request.
pub struct AckResponse {
    pub tenant_id: String,
    pub status: String,
    pub desired_state: String,
    pub active_deployment_count: u8,
}

/// The mathematical value of `AckResponse`.
pub struct AckResponseView {
    pub tenant_id: Seq<char>,
    pub status: Seq<char>,
    pub desired_state: Seq<char>,
    pub active_deployment_count: u8,
}

impl View for AckResponse {
    type V = AckResponseView;

    open spec fn view(&self) -> AckResponseView {
        AckResponseView {
            tenant_id: self.tenant_id@,
            status: self.status@,
            desired_state: self.desired_state@,
            active_deployment_count: self.active_deployment_count,
        }
    }
}

/// The mathematical value of `ApiError`.
pub struct ApiErrorView {
    pub status: u16,
    pub error: Seq<char>,
    pub message: Option<Seq<char>>,
}

impl View for ApiError {
    type V = ApiErrorView;

    open spec fn view(&self) -> ApiErrorView {
        ApiErrorView { status: self.status, error: self.error@, message: opt_view(self.message) }
    }
}

/// The answer a flow ends with.
pub enum ApiReply {
    Created(CreateTenantResponse),
    Ack(AckResponse),
    Failed(ApiError),
}

/// The mathematical value of `ApiReply`.
pub enum ApiReplyView {
    Created(CreateTenantResponseView),
    Ack(AckResponseView),
    Failed(ApiErrorView),
}

impl View for ApiReply {
    type V = ApiReplyView;

    open spec fn view(&self) -> ApiReplyView {
        match self {
            ApiReply::Created(c) => ApiReplyView::Created(c@),
            ApiReply::Ack(a) => ApiReplyView::Ack(a@),
            ApiReply::Failed(e) => ApiReplyView::Failed(e@),
        }
    }
}

/// What a flow asks the service to do next.
pub enum ApiAction {
    /// Read the record stored under this key.
    Load(String),
    /// Store this record under this key.
    Write(String, TenantRecord),
    /// Publish this message on this subject.
    Publish(String, TenantMessage),
    /// Ask billing for a checkout session.
    RequestCheckout(CheckoutRequest),
    /// Answer the HTTP request; the flow is over.
    Reply(ApiReply),
}

/// The mathematical value of `ApiAction`.
pub enum ApiActionView {
    Load(Seq<char>),
    Write(Seq<char>, TenantRecordView),
    Publish(Seq<char>, TenantMessageView),
    RequestCheckout(CheckoutRequestView),
    Reply(ApiReplyView),
}

impl View for ApiAction {
    type V = ApiActionView;

    open spec fn view(&self) -> ApiActionView {
        match self {
            ApiAction::Load(k) => ApiActionView::Load(k@),
            ApiAction::Write(k, r) => ApiActionView::Write(k@, r@),
            ApiAction::Publish(s, m) => ApiActionView::Publish(s@, m@),
            ApiAction::RequestCheckout(c) => ApiActionView::RequestCheckout(c@),
            ApiAction::Reply(r) => ApiActionView::Reply(r@),
        }
    }
}

/// What the service reports back to a flow.
pub enum ApiEvent {
    /// The record was read; `None` when the store has none.
    Loaded(Option<TenantRecord>),
    /// The record was stored.
    Written,
    /// The message was published.
    Published,
    /// Billing answered: a session, or the failure's message.
    CheckoutReplied(Result<CheckoutResponse, String>),
}

/// The mathematical value of `ApiEvent`.
pub enum ApiEventView {
    Loaded(Option<TenantRecordView>),
    Written,
    Published,
    CheckoutReplied(Result<(Seq<char>, Seq<char>), Seq<char>>),
}

impl View for ApiEvent {
    type V = ApiEventView;

    open spec fn view(&self) -> ApiEventView {
        match self {
            ApiEvent::Loaded(Some(r)) => ApiEventView::Loaded(Some(r@)),
            ApiEvent::Loaded(None) => ApiEventView::Loaded(None),
            ApiEvent::Written => ApiEventView::Written,
            ApiEvent::Published => ApiEventView::Published,
            ApiEvent::CheckoutReplied(Ok(c)) => ApiEventView::CheckoutReplied(Ok((c.checkout_url@, c.session_id@))),
            ApiEvent::CheckoutReplied(Err(m)) => ApiEventView::CheckoutReplied(Err(m@)),
        }
    }
}

} // verus!
