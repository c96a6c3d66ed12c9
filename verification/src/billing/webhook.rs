//! Handling Stripe webhooks: check the signature, read the event, and tell the provisioner
//! about subscriptions that became active or were canceled.
//!
//! The handling is a short state machine: `start_webhook` checks the signature,
//! `WebhookPhase::step` takes the parsed event and then the outcome of publishing, and
//! each gives the next action. The service reads the body and publishes.

use vstd::prelude::*;
use crate::text::{copy_opt, copy_str, opt_view, str_eq};
use crate::billing::signature::{verify_of, verify_stripe_signature_at};

verus! {

/// The billing service's webhook settings.
pub struct WebhookSettings {
    pub webhook_secret: Option<String>,
    pub publish_active_subject: String,
    pub publish_canceled_subject: String,
}

/// What a webhook event's `data.object` carries that billing reads.
pub struct StripeObject {
    /// `metadata.tenant_id`, when it is a string.
    pub tenant_id: Option<String>,
    /// `customer`, when it is a string.
    pub customer: Option<String>,
    /// `subscription`, when it is a string.
    pub subscription: Option<String>,
    /// `id`, when it is a string.
    pub id: Option<String>,
}

/// What a webhook event carries that billing reads.
pub struct StripeEvent {
    /// `type`, when it is a string.
    pub event_type: Option<String>,
    /// `data.object`, when present.
    pub object: Option<StripeObject>,
}

/// A subscription became active.
pub struct ActiveEvent {
    pub tenant_id: String,
    pub stripe_customer_id: Option<String>,
    pub stripe_subscription_id: Option<String>,
    pub stripe_checkout_session_id: String,
    pub activated_at: i64,
}

/// A subscription was canceled.
pub struct CanceledEvent {
    pub tenant_id: String,
    pub canceled_at: i64,
}

/// An event billing publishes.
pub enum BillingEvent {
    Active(ActiveEvent),
    Canceled(CanceledEvent),
}

/// Why a webhook event could not be handled.
#[derive(PartialEq, Eq, Structural)]
pub enum WebhookError {
    /// The event has no `data.object`.
    MissingObject,
    /// The object has no `metadata.tenant_id`.
    MissingTenant,
}

/// The active-subscription event for a completed checkout at time `now`: the tenant from
/// the metadata, the customer and subscription when present, and the session id (empty when
/// absent).
pub fn checkout_completed_event(object: &Option<StripeObject>, now: i64) -> (r: Result<ActiveEvent, WebhookError>)
    ensures
        object is None ==> r == Err::<ActiveEvent, WebhookError>(WebhookError::MissingObject),
        object matches Some(o) ==> (o.tenant_id is None ==> r == Err::<ActiveEvent, WebhookError>(WebhookError::MissingTenant)),
        object matches Some(o) ==> (o.tenant_id is Some ==> (r matches Ok(e) && e.tenant_id@ == o.tenant_id->0@
            && opt_view(e.stripe_customer_id) == opt_view(o.customer)
            && opt_view(e.stripe_subscription_id) == opt_view(o.subscription)
            && e.stripe_checkout_session_id@ == (match o.id { Some(i) => i@, None => ""@ })
            && e.activated_at == now)),
{
    let o = match object {
        Some(o) => o,
        None => return Err(WebhookError::MissingObject),
    };
    let tenant_id = match &o.tenant_id {
        Some(t) => copy_str(t.as_str()),
        None => return Err(WebhookError::MissingTenant),
    };
    let session = match &o.id {
        Some(i) => copy_str(i.as_str()),
        None => copy_str(""),
    };
    Ok(ActiveEvent {
        tenant_id: tenant_id,
        stripe_customer_id: copy_opt(&o.customer),
        stripe_subscription_id: copy_opt(&o.subscription),
        stripe_checkout_session_id: session,
        activated_at: now,
    })
}

/// The canceled-subscription event for a deleted subscription at time `now`.
pub fn subscription_deleted_event(object: &Option<StripeObject>, now: i64) -> (r: Result<CanceledEvent, WebhookError>)
    ensures
        object is None ==> r == Err::<CanceledEvent, WebhookError>(WebhookError::MissingObject),
        object matches Some(o) ==> (o.tenant_id is None ==> r == Err::<CanceledEvent, WebhookError>(WebhookError::MissingTenant)),
        object matches Some(o) ==> (o.tenant_id is Some ==> (r matches Ok(e) && e.tenant_id@ == o.tenant_id->0@
            && e.canceled_at == now)),
{
    let o = match object {
        Some(o) => o,
        None => return Err(WebhookError::MissingObject),
    };
    match &o.tenant_id {
        Some(t) => Ok(CanceledEvent { tenant_id: copy_str(t.as_str()), canceled_at: now }),
        None => Err(WebhookError::MissingTenant),
    }
}

/// Where a webhook stands.
pub enum WebhookPhase {
    AwaitEvent,
    AwaitPublish,
    Finished,
}

/// What the service reports back.
pub enum WebhookEvent {
    /// The body was read as JSON; `None` when it is not JSON.
    Parsed(Option<StripeEvent>),
    Published,
    PublishFailed,
}

/// What the service must do next.
pub enum WebhookAction {
    /// Read the request body as a JSON event.
    ParseBody,
    /// Publish this event on this subject.
    Publish(String, BillingEvent),
    /// Answer with this status and text; the webhook is handled.
    Respond(u16, String),
}

/// The webhook's event type (`unknown` when it has none).
pub open spec fn event_type_of(e: StripeEvent) -> Seq<char> {
    match e.event_type {
        Some(t) => t@,
        None => "unknown"@,
    }
}

/// Starts handling a webhook at time `now`. A configured webhook secret means the
/// signature is verified, so the request must be signed: a request without a
/// `Stripe-Signature` header is refused, not processed unchecked, and it is answered 400
/// `invalid signature` just like one whose signature `verify_of` refuses (with a tolerance
/// of five minutes). Without a configured secret, or with an accepted signature, the body
/// is read.
pub fn start_webhook(settings: &WebhookSettings, signature: &Option<String>, body: &[u8], now: i64) -> (r: (WebhookPhase, WebhookAction))
    ensures
        ({
            let refused = settings.webhook_secret is Some && (signature is None
                || verify_of(settings.webhook_secret->0@, signature->0@, body@, 300, now) is Err);
            &&& refused ==> (r.0 matches WebhookPhase::Finished && r.1 matches WebhookAction::Respond(400, m)
                && m@ == "invalid signature"@)
            &&& !refused ==> (r.0 matches WebhookPhase::AwaitEvent && r.1 matches WebhookAction::ParseBody)
        }),
{
    if let Some(secret) = &settings.webhook_secret {
        let accepted = match signature {
            Some(header) => verify_stripe_signature_at(secret.as_str(), header.as_str(), body, 300, now).is_ok(),
            None => false,
        };
        if !accepted {
            return (WebhookPhase::Finished, WebhookAction::Respond(400, copy_str("invalid signature")));
        }
    }
    (WebhookPhase::AwaitEvent, WebhookAction::ParseBody)
}

impl WebhookPhase {
    /// One step of a webhook at time `now`. A body that is not JSON is answered 400
    /// `invalid JSON`. A `checkout.session.completed` event publishes an active-subscription
    /// event on the active subject, a `customer.subscription.deleted` event a canceled one on
    /// the canceled subject; an event that lacks its object or tenant, or whose publishing
    /// fails, is answered 500 `error`. Any other event is ignored and, like a published one,
    /// answered 200 `ok`.
    pub fn step(self, settings: &WebhookSettings, event: WebhookEvent, now: i64) -> (r: (WebhookPhase, WebhookAction))
        ensures
            self matches WebhookPhase::AwaitEvent ==> (event matches WebhookEvent::Parsed(None) ==> (
                r.0 matches WebhookPhase::Finished && r.1 matches WebhookAction::Respond(400, m) && m@ == "invalid JSON"@)),
            self matches WebhookPhase::AwaitEvent ==> (event matches WebhookEvent::Parsed(Some(e)) ==> {
                let t = event_type_of(e);
                &&& t == "checkout.session.completed"@ ==> (match e.object {
                    Some(o) if o.tenant_id is Some => r.0 matches WebhookPhase::AwaitPublish
                        && r.1 matches WebhookAction::Publish(s, BillingEvent::Active(a))
                        && s@ == settings.publish_active_subject@ && a.tenant_id@ == o.tenant_id->0@
                        && opt_view(a.stripe_customer_id) == opt_view(o.customer)
                        && opt_view(a.stripe_subscription_id) == opt_view(o.subscription)
                        && a.stripe_checkout_session_id@ == (match o.id { Some(i) => i@, None => ""@ })
                        && a.activated_at == now,
                    _ => r.0 matches WebhookPhase::Finished && r.1 matches WebhookAction::Respond(500, m) && m@ == "error"@,
                })
                &&& t == "customer.subscription.deleted"@ ==> (match e.object {
                    Some(o) if o.tenant_id is Some => r.0 matches WebhookPhase::AwaitPublish
                        && r.1 matches WebhookAction::Publish(s, BillingEvent::Canceled(c))
                        && s@ == settings.publish_canceled_subject@ && c.tenant_id@ == o.tenant_id->0@
                        && c.canceled_at == now,
                    _ => r.0 matches WebhookPhase::Finished && r.1 matches WebhookAction::Respond(500, m) && m@ == "error"@,
                })
                &&& (t != "checkout.session.completed"@ && t != "customer.subscription.deleted"@) ==> (
                    r.0 matches WebhookPhase::Finished && r.1 matches WebhookAction::Respond(200, m) && m@ == "ok"@)
            }),
            self matches WebhookPhase::AwaitPublish ==> (event matches WebhookEvent::Published ==> (
                r.0 matches WebhookPhase::Finished && r.1 matches WebhookAction::Respond(200, m) && m@ == "ok"@)),
            self matches WebhookPhase::AwaitPublish ==> (event matches WebhookEvent::PublishFailed ==> (
                r.0 matches WebhookPhase::Finished && r.1 matches WebhookAction::Respond(500, m) && m@ == "error"@)),
    {
        match (self, event) {
            (WebhookPhase::AwaitEvent, WebhookEvent::Parsed(None)) => {
                (WebhookPhase::Finished, WebhookAction::Respond(400, copy_str("invalid JSON")))
            },
            (WebhookPhase::AwaitEvent, WebhookEvent::Parsed(Some(e))) => {
                let t = match &e.event_type {
                    Some(t) => copy_str(t.as_str()),
                    None => copy_str("unknown"),
                };
                proof {
                    reveal_strlit("checkout.session.completed");
                    reveal_strlit("customer.subscription.deleted");
                    assert("checkout.session.completed"@.len() != "customer.subscription.deleted"@.len());
                }
                if str_eq(t.as_str(), "checkout.session.completed") {
                    match checkout_completed_event(&e.object, now) {
                        Ok(a) => (WebhookPhase::AwaitPublish, WebhookAction::Publish(
                            copy_str(settings.publish_active_subject.as_str()), BillingEvent::Active(a))),
                        Err(_) => (WebhookPhase::Finished, WebhookAction::Respond(500, copy_str("error"))),
                    }
                } else if str_eq(t.as_str(), "customer.subscription.deleted") {
                    match subscription_deleted_event(&e.object, now) {
                        Ok(c) => (WebhookPhase::AwaitPublish, WebhookAction::Publish(
                            copy_str(settings.publish_canceled_subject.as_str()), BillingEvent::Canceled(c))),
                        Err(_) => (WebhookPhase::Finished, WebhookAction::Respond(500, copy_str("error"))),
                    }
                } else {
                    (WebhookPhase::Finished, WebhookAction::Respond(200, copy_str("ok")))
                }
            },
            (WebhookPhase::AwaitPublish, WebhookEvent::Published) => {
                (WebhookPhase::Finished, WebhookAction::Respond(200, copy_str("ok")))
            },
            _ => (WebhookPhase::Finished, WebhookAction::Respond(500, copy_str("error"))),
        }
    }
}

} // verus!
