//! Creating Stripe checkout sessions for new tenants.

use vstd::prelude::*;
use crate::text::{ascii_upper, concat2, copy_str, to_ascii_uppercase};

verus! {

/// A request for a checkout session.
pub struct CheckoutRequest {
    pub tenant_id: String,
    pub email: String,
    pub plan: String,
}

/// The mathematical value of `CheckoutRequest`.
pub struct CheckoutRequestView {
    pub tenant_id: Seq<char>,
    pub email: Seq<char>,
    pub plan: Seq<char>,
}

impl View for CheckoutRequest {
    type V = CheckoutRequestView;

    open spec fn view(&self) -> CheckoutRequestView {
        CheckoutRequestView { tenant_id: self.tenant_id@, email: self.email@, plan: self.plan@ }
    }
}

/// A checkout session: where to send the customer, and the session's id.
pub struct CheckoutResponse {
    pub checkout_url: String,
    pub session_id: String,
}

/// Why no checkout session could be created.
pub enum CheckoutError {
    /// `STRIPE_SECRET_KEY` is not set.
    MissingSecretKey,
    /// The plan has no price id; carries the variable that was looked up and the plan.
    MissingPriceId(String, String),
    /// Stripe refused; carries its status and body.
    StripeFailed(String, String),
    /// Stripe's answer could not be read.
    Unreadable,
    /// Stripe's answer has no checkout URL.
    MissingUrl,
}

impl CheckoutError {
    /// The error's message.
    pub fn message(&self) -> (m: String)
        ensures
            m@ == match *self {
                CheckoutError::MissingSecretKey => "STRIPE_SECRET_KEY is required"@,
                CheckoutError::MissingPriceId(key, plan) => "missing env var "@ + key@ + " for plan="@ + plan@,
                CheckoutError::StripeFailed(status, body) => "stripe create session failed: status="@ + status@ + " body="@ + body@,
                CheckoutError::Unreadable => "parse stripe checkout session response"@,
                CheckoutError::MissingUrl => "Stripe response missing checkout URL"@,
            },
    {
        match self {
            CheckoutError::MissingSecretKey => copy_str("STRIPE_SECRET_KEY is required"),
            CheckoutError::MissingPriceId(key, plan) => {
                let mut m = concat2("missing env var ", key.as_str());
                m.append(" for plan=");
                m.append(plan.as_str());
                m
            },
            CheckoutError::StripeFailed(status, body) => {
                let mut m = concat2("stripe create session failed: status=", status.as_str());
                m.append(" body=");
                m.append(body.as_str());
                m
            },
            CheckoutError::Unreadable => copy_str("parse stripe checkout session response"),
            CheckoutError::MissingUrl => copy_str("Stripe response missing checkout URL"),
        }
    }
}

/// The variable that holds a plan's Stripe price id: `STRIPE_PRICE_ID_` and the plan in
/// ASCII upper case.
pub open spec fn price_id_key_of(plan: Seq<char>) -> Seq<char> {
    "STRIPE_PRICE_ID_"@ + plan.map_values(|c: char| ascii_upper(c))
}

/// The variable that holds a plan's Stripe price id (see `price_id_key_of`).
pub fn price_id_env_key(plan: &str) -> (key: String)
    ensures
        key@ == price_id_key_of(plan@),
{
    let upper = to_ascii_uppercase(plan);
    concat2("STRIPE_PRICE_ID_", upper.as_str())
}

/// A plan's price id from the value of its variable; missing when the variable is unset.
pub fn price_id_for_plan(plan: &str, configured: Option<String>) -> (r: Result<String, CheckoutError>)
    ensures
        configured matches Some(v) ==> (r matches Ok(p) && p@ == v@),
        configured is None ==> (r matches Err(CheckoutError::MissingPriceId(key, p)) && key@ == price_id_key_of(plan@)
            && p@ == plan@),
{
    match configured {
        Some(v) => Ok(v),
        None => Err(CheckoutError::MissingPriceId(price_id_env_key(plan), copy_str(plan))),
    }
}

/// Where Stripe sends the customer after paying (`STRIPE_SUCCESS_URL`, default
/// `http://localhost:8000/success?session_id={CHECKOUT_SESSION_ID}`).
pub fn success_url(configured: Option<String>) -> (u: String)
    ensures
        u@ == match configured {
            Some(v) => v@,
            None => "http://localhost:8000/success?session_id={CHECKOUT_SESSION_ID}"@,
        },
{
    match configured {
        Some(v) => v,
        None => copy_str("http://localhost:8000/success?session_id={CHECKOUT_SESSION_ID}"),
    }
}

/// Where Stripe sends the customer after canceling (`STRIPE_CANCEL_URL`, default
/// `http://localhost:8000/cancel`).
pub fn cancel_url(configured: Option<String>) -> (u: String)
    ensures
        u@ == match configured {
            Some(v) => v@,
            None => "http://localhost:8000/cancel"@,
        },
{
    match configured {
        Some(v) => v,
        None => copy_str("http://localhost:8000/cancel"),
    }
}

/// What to send Stripe: the secret key to authenticate with and the form fields.
pub struct CheckoutPlan {
    pub secret_key: String,
    pub form: Vec<(String, String)>,
}

/// The form fields of a subscription checkout for one unit of the plan's price, with the
/// tenant as client reference and in the metadata.
pub open spec fn checkout_form_of(req: CheckoutRequestView, price_id: Seq<char>, success: Seq<char>, cancel: Seq<char>) -> Seq<(Seq<char>, Seq<char>)> {
    seq![
        ("mode"@, "subscription"@),
        ("success_url"@, success),
        ("cancel_url"@, cancel),
        ("customer_email"@, req.email),
        ("client_reference_id"@, req.tenant_id),
        ("line_items[0][price]"@, price_id),
        ("line_items[0][quantity]"@, "1"@),
        ("metadata[tenant_id]"@, req.tenant_id),
        ("metadata[plan]"@, req.plan),
    ]
}

/// The view of a list of string pairs.
pub open spec fn pairs_view(v: Seq<(String, String)>) -> Seq<(Seq<char>, Seq<char>)> {
    v.map_values(|p: (String, String)| (p.0@, p.1@))
}

/// Prepares a checkout from the configuration: the secret key is required, then the plan's
/// price id; the form is `checkout_form_of`.
pub fn prepare_checkout(
    req: &CheckoutRequest,
    stripe_secret: Option<String>,
    price_id: Result<String, CheckoutError>,
    success: String,
    cancel: String,
) -> (r: Result<CheckoutPlan, CheckoutError>)
    ensures
        stripe_secret is None ==> (r matches Err(CheckoutError::MissingSecretKey)),
        stripe_secret is Some && price_id is Err ==> r == Err::<CheckoutPlan, CheckoutError>(price_id->Err_0),
        stripe_secret is Some && price_id is Ok ==> (r matches Ok(plan) && plan.secret_key@ == stripe_secret->0@
            && pairs_view(plan.form@) == checkout_form_of(req@, price_id->Ok_0@, success@, cancel@)),
{
    let secret = match stripe_secret {
        Some(s) => s,
        None => return Err(CheckoutError::MissingSecretKey),
    };
    let price = match price_id {
        Ok(p) => p,
        Err(e) => return Err(e),
    };
    let mut form: Vec<(String, String)> = Vec::new();
    form.push((copy_str("mode"), copy_str("subscription")));
    form.push((copy_str("success_url"), success));
    form.push((copy_str("cancel_url"), cancel));
    form.push((copy_str("customer_email"), copy_str(req.email.as_str())));
    form.push((copy_str("client_reference_id"), copy_str(req.tenant_id.as_str())));
    form.push((copy_str("line_items[0][price]"), price));
    form.push((copy_str("line_items[0][quantity]"), copy_str("1")));
    form.push((copy_str("metadata[tenant_id]"), copy_str(req.tenant_id.as_str())));
    form.push((copy_str("metadata[plan]"), copy_str(req.plan.as_str())));
    assert(pairs_view(form@) =~= checkout_form_of(req@, price@, success@, cancel@));
    Ok(CheckoutPlan { secret_key: secret, form: form })
}

/// The checkout session Stripe answered with: its id and, when present, its URL.
pub struct StripeSession {
    pub id: String,
    pub url: Option<String>,
}

/// Reads Stripe's answer: a failing status is an error carrying the status and body; an
/// unreadable answer or one without a URL is an error; otherwise the session.
pub fn finish_checkout(success_status: bool, status: String, body: String, session: Option<StripeSession>) -> (r: Result<CheckoutResponse, CheckoutError>)
    ensures
        !success_status ==> (r matches Err(CheckoutError::StripeFailed(s, b)) && s@ == status@ && b@ == body@),
        success_status && session is None ==> (r matches Err(CheckoutError::Unreadable)),
        session matches Some(s) ==> (success_status && s.url is None ==> (r matches Err(
            CheckoutError::MissingUrl))),
        session matches Some(s) ==> (success_status && s.url is Some ==> (r matches Ok(c)
            && c.checkout_url@ == s.url->0@ && c.session_id@ == s.id@)),
{
    if !success_status {
        return Err(CheckoutError::StripeFailed(status, body));
    }
    match session {
        None => Err(CheckoutError::Unreadable),
        Some(s) => match s.url {
            None => Err(CheckoutError::MissingUrl),
            Some(u) => Ok(CheckoutResponse { checkout_url: u, session_id: s.id }),
        },
    }
}

/// What to do with the outcome of a checkout request received over messaging.
pub enum CheckoutReply {
    /// Send this outcome to this reply subject.
    Send(String, Result<CheckoutResponse, String>),
    /// The request had no reply subject; nothing is sent.
    NoReplySubject,
}

/// A request with a reply subject gets its outcome, session or error message, sent back;
/// one without gets nothing.
pub fn checkout_reply(reply_to: Option<String>, outcome: Result<CheckoutResponse, String>) -> (r: CheckoutReply)
    ensures
        reply_to matches Some(s) ==> (r matches CheckoutReply::Send(t, o) && t@ == s@ && o == outcome),
        reply_to is None ==> (r matches CheckoutReply::NoReplySubject),
{
    match reply_to {
        Some(s) => CheckoutReply::Send(s, outcome),
        None => CheckoutReply::NoReplySubject,
    }
}

} // verus!
