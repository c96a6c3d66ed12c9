//! The provisioner's jobs as state machines.
//!
//! A job alternates work that only the service can do (reading and writing the tenant
//! record, starting or stopping the tenant's stack, looking at the disk) with decisions. The
//! decisions are made here: `ProvisionPhase::step` and `TeardownPhase::step` take the phase a
//! job is in and the event that the service reports, and give the next phase and the action
//! the service must perform next. The service runs the loop.

use vstd::prelude::*;
use crate::text::{copy_opt, copy_str, opt_view, str_eq};
use crate::provisioner::naming::{
    gateway_url_of, tenant_console_url, tenant_gateway_url, trimmed_domain,
};
use crate::provisioner::record::{
    empty_record_of, empty_tenant_record, TenantRecord, TenantRecordView,
};

verus! {

/// The secrets generated for a new tenant stack.
pub struct TenantSecrets {
    pub postgres_password: String,
    pub jwt_secret: String,
    pub anon_key: String,
    pub service_key: String,
    pub dashboard_username: String,
    pub dashboard_password: String,
    pub secret_key_base: String,
    pub vault_enc_key: String,
    pub pg_meta_crypto_key: String,
    pub logflare_public: String,
    pub logflare_private: String,
    pub s3_protocol_access_key_id: String,
    pub s3_protocol_access_key_secret: String,
}

/// The mathematical value of `TenantSecrets`.
pub struct TenantSecretsView {
    pub postgres_password: Seq<char>,
    pub jwt_secret: Seq<char>,
    pub anon_key: Seq<char>,
    pub service_key: Seq<char>,
    pub dashboard_username: Seq<char>,
    pub dashboard_password: Seq<char>,
    pub secret_key_base: Seq<char>,
    pub vault_enc_key: Seq<char>,
    pub pg_meta_crypto_key: Seq<char>,
    pub logflare_public: Seq<char>,
    pub logflare_private: Seq<char>,
    pub s3_protocol_access_key_id: Seq<char>,
    pub s3_protocol_access_key_secret: Seq<char>,
}

impl View for TenantSecrets {
    type V = TenantSecretsView;

    open spec fn view(&self) -> TenantSecretsView {
        TenantSecretsView {
            postgres_password: self.postgres_password@,
            jwt_secret: self.jwt_secret@,
            anon_key: self.anon_key@,
            service_key: self.service_key@,
            dashboard_username: self.dashboard_username@,
            dashboard_password: self.dashboard_password@,
            secret_key_base: self.secret_key_base@,
            vault_enc_key: self.vault_enc_key@,
            pg_meta_crypto_key: self.pg_meta_crypto_key@,
            logflare_public: self.logflare_public@,
            logflare_private: self.logflare_private@,
            s3_protocol_access_key_id: self.s3_protocol_access_key_id@,
            s3_protocol_access_key_secret: self.s3_protocol_access_key_secret@,
        }
    }
}

/// What the provisioner answers once a tenant's stack is (or stays) up.
pub struct ProvisionAck {
    pub tenant_id: String,
    pub status: String,
    pub api_url: Option<String>,
    pub gateway_url: Option<String>,
    pub console_url: Option<String>,
    pub active_deployment_count: u8,
}

/// The mathematical value of `ProvisionAck`.
pub struct ProvisionAckView {
    pub tenant_id: Seq<char>,
    pub status: Seq<char>,
    pub api_url: Option<Seq<char>>,
    pub gateway_url: Option<Seq<char>>,
    pub console_url: Option<Seq<char>>,
    pub active_deployment_count: u8,
}

impl View for ProvisionAck {
    type V = ProvisionAckView;

    open spec fn view(&self) -> ProvisionAckView {
        ProvisionAckView {
            tenant_id: self.tenant_id@,
            status: self.status@,
            api_url: opt_view(self.api_url),
            gateway_url: opt_view(self.gateway_url),
            console_url: opt_view(self.console_url),
            active_deployment_count: self.active_deployment_count,
        }
    }
}

/// What the provisioner answers once a tenant's stack is paused or deleted.
pub struct ActionAck {
    pub tenant_id: String,
    pub status: String,
    pub desired_state: String,
    pub active_deployment_count: u8,
}

/// The mathematical value of `ActionAck`.
pub struct ActionAckView {
    pub tenant_id: Seq<char>,
    pub status: Seq<char>,
    pub desired_state: Seq<char>,
    pub active_deployment_count: u8,
}

impl View for ActionAck {
    type V = ActionAckView;

    open spec fn view(&self) -> ActionAckView {
        ActionAckView {
            tenant_id: self.tenant_id@,
            status: self.status@,
            desired_state: self.desired_state@,
            active_deployment_count: self.active_deployment_count,
        }
    }
}

/// A request to bring a tenant's stack up, with the provisioner settings it needs.
pub struct ProvisionJob {
    pub tenant_id: String,
    pub base_domain: String,
    pub public_web_base_url: String,
    /// The provisioning backend; only `docker` starts containers.
    pub backend: String,
    pub email: Option<String>,
    pub plan: Option<String>,
    pub stripe_checkout_session_id: Option<String>,
    pub stripe_customer_id: Option<String>,
    pub stripe_subscription_id: Option<String>,
}

/// The mathematical value of `ProvisionJob`.
pub struct ProvisionJobView {
    pub tenant_id: Seq<char>,
    pub base_domain: Seq<char>,
    pub public_web_base_url: Seq<char>,
    pub backend: Seq<char>,
    pub email: Option<Seq<char>>,
    pub plan: Option<Seq<char>>,
    pub stripe_checkout_session_id: Option<Seq<char>>,
    pub stripe_customer_id: Option<Seq<char>>,
    pub stripe_subscription_id: Option<Seq<char>>,
}

impl View for ProvisionJob {
    type V = ProvisionJobView;

    open spec fn view(&self) -> ProvisionJobView {
        ProvisionJobView {
            tenant_id: self.tenant_id@,
            base_domain: self.base_domain@,
            public_web_base_url: self.public_web_base_url@,
            backend: self.backend@,
            email: opt_view(self.email),
            plan: opt_view(self.plan),
            stripe_checkout_session_id: opt_view(self.stripe_checkout_session_id),
            stripe_customer_id: opt_view(self.stripe_customer_id),
            stripe_subscription_id: opt_view(self.stripe_subscription_id),
        }
    }
}

/// What the service reports back to a job.
pub enum JobEvent {
    /// The job has just been created.
    Started,
    /// The tenant record was read; `None` when the store has none.
    Loaded(Option<TenantRecord>),
    /// The tenant record was written.
    Written,
    /// Whether the tenant's stack directory is still missing (a fresh tenant).
    Freshness(bool),
    /// Secrets for a new stack were generated.
    SecretsReady(TenantSecrets),
    /// The tenant's stack was started or reconciled.
    StackReady,
    /// The tenant's stack was stopped or removed.
    TornDown,
}

/// The mathematical value of `JobEvent`.
pub enum JobEventView {
    Started,
    Loaded(Option<TenantRecordView>),
    Written,
    Freshness(bool),
    SecretsReady(TenantSecretsView),
    StackReady,
    TornDown,
}

/// The view of an optional record.
pub open spec fn opt_record_view(o: Option<TenantRecord>) -> Option<TenantRecordView> {
    match o {
        Some(r) => Some(r@),
        None => None,
    }
}

impl View for JobEvent {
    type V = JobEventView;

    open spec fn view(&self) -> JobEventView {
        match self {
            JobEvent::Started => JobEventView::Started,
            JobEvent::Loaded(o) => JobEventView::Loaded(opt_record_view(*o)),
            JobEvent::Written => JobEventView::Written,
            JobEvent::Freshness(b) => JobEventView::Freshness(*b),
            JobEvent::SecretsReady(s) => JobEventView::SecretsReady(s@),
            JobEvent::StackReady => JobEventView::StackReady,
            JobEvent::TornDown => JobEventView::TornDown,
        }
    }
}

/// What a job asks the service to do next.
pub enum JobAction {
    /// Read the tenant record.
    Load,
    /// Write this tenant record.
    Write(TenantRecord),
    /// Find out whether the tenant's stack directory exists.
    CheckFreshness,
    /// Generate secrets for a new stack.
    GenerateSecrets,
    /// Lay out and start a new stack with these secrets.
    StartStack(TenantSecrets),
    /// Repair and restart the existing stack.
    ReconcileStack,
    /// Stop the stack and remove its route.
    StopStack,
    /// Stop the stack and remove its files and route.
    RemoveStack,
    /// The provisioning job is done; answer with this.
    ReplyProvision(ProvisionAck),
    /// The pause or delete job is done; answer with this.
    ReplyAction(ActionAck),
    /// The event does not fit the phase; the job stops.
    Abort,
}

/// The mathematical value of `JobAction`.
pub enum JobActionView {
    Load,
    Write(TenantRecordView),
    CheckFreshness,
    GenerateSecrets,
    StartStack(TenantSecretsView),
    ReconcileStack,
    StopStack,
    RemoveStack,
    ReplyProvision(ProvisionAckView),
    ReplyAction(ActionAckView),
    Abort,
}

impl View for JobAction {
    type V = JobActionView;

    open spec fn view(&self) -> JobActionView {
        match self {
            JobAction::Load => JobActionView::Load,
            JobAction::Write(r) => JobActionView::Write(r@),
            JobAction::CheckFreshness => JobActionView::CheckFreshness,
            JobAction::GenerateSecrets => JobActionView::GenerateSecrets,
            JobAction::StartStack(s) => JobActionView::StartStack(s@),
            JobAction::ReconcileStack => JobActionView::ReconcileStack,
            JobAction::StopStack => JobActionView::StopStack,
            JobAction::RemoveStack => JobActionView::RemoveStack,
            JobAction::ReplyProvision(a) => JobActionView::ReplyProvision(a@),
            JobAction::ReplyAction(a) => JobActionView::ReplyAction(a@),
            JobAction::Abort => JobActionView::Abort,
        }
    }
}

/// Where a provisioning job stands.
pub enum ProvisionPhase {
    Start,
    AwaitExisting,
    AwaitFirstWrite(TenantRecord),
    AwaitFreshness(TenantRecord),
    AwaitSecrets(TenantRecord),
    AwaitStack(TenantRecord),
    AwaitLatest(TenantRecord),
    AwaitTeardown(TenantRecord),
    AwaitFinalWrite(TenantRecord),
    Finished,
}

/// The mathematical value of `ProvisionPhase`.
pub enum ProvisionPhaseView {
    Start,
    AwaitExisting,
    AwaitFirstWrite(TenantRecordView),
    AwaitFreshness(TenantRecordView),
    AwaitSecrets(TenantRecordView),
    AwaitStack(TenantRecordView),
    AwaitLatest(TenantRecordView),
    AwaitTeardown(TenantRecordView),
    AwaitFinalWrite(TenantRecordView),
    Finished,
}

impl View for ProvisionPhase {
    type V = ProvisionPhaseView;

    open spec fn view(&self) -> ProvisionPhaseView {
        match self {
            ProvisionPhase::Start => ProvisionPhaseView::Start,
            ProvisionPhase::AwaitExisting => ProvisionPhaseView::AwaitExisting,
            ProvisionPhase::AwaitFirstWrite(r) => ProvisionPhaseView::AwaitFirstWrite(r@),
            ProvisionPhase::AwaitFreshness(r) => ProvisionPhaseView::AwaitFreshness(r@),
            ProvisionPhase::AwaitSecrets(r) => ProvisionPhaseView::AwaitSecrets(r@),
            ProvisionPhase::AwaitStack(r) => ProvisionPhaseView::AwaitStack(r@),
            ProvisionPhase::AwaitLatest(r) => ProvisionPhaseView::AwaitLatest(r@),
            ProvisionPhase::AwaitTeardown(r) => ProvisionPhaseView::AwaitTeardown(r@),
            ProvisionPhase::AwaitFinalWrite(r) => ProvisionPhaseView::AwaitFinalWrite(r@),
            ProvisionPhase::Finished => ProvisionPhaseView::Finished,
        }
    }
}

/// `o` if it holds a value, else `fallback`.
pub open spec fn or_else<T>(o: Option<T>, fallback: Option<T>) -> Option<T> {
    if o is Some {
        o
    } else {
        fallback
    }
}

/// The record a provisioning job writes before it touches the stack: the stored record (or a
/// fresh one) with missing contact details filled in from the request, the desired state set
/// to `active`, a single deployment slot, the status `active` if a deployment is already up
/// and `provisioning` otherwise, the tenant's URLs, and the billing ids that the request
/// brings.
pub open spec fn provisioning_record(job: ProvisionJobView, existing: Option<TenantRecordView>) -> TenantRecordView {
    let base = match existing {
        Some(r) => r,
        None => empty_record_of(job.tenant_id, job.base_domain),
    };
    let gw = gateway_url_of(job.base_domain, job.tenant_id);
    TenantRecordView {
        email: or_else(base.email, job.email),
        plan: or_else(base.plan, job.plan),
        desired_state: "active"@,
        deployment_mode: "single"@,
        status: if base.active_deployment_count == 1 { "active"@ } else { "provisioning"@ },
        api_url: Some(gw),
        gateway_url: Some(gw),
        console_url: Some(gateway_url_of(trimmed_domain(job.base_domain), job.tenant_id)),
        stripe_checkout_session_id: or_else(job.stripe_checkout_session_id, base.stripe_checkout_session_id),
        stripe_customer_id: or_else(job.stripe_customer_id, base.stripe_customer_id),
        stripe_subscription_id: or_else(job.stripe_subscription_id, base.stripe_subscription_id),
        ..base
    }
}

/// The record with the credentials of a newly started stack.
pub open spec fn with_secrets(rec: TenantRecordView, s: TenantSecretsView) -> TenantRecordView {
    TenantRecordView {
        anon_key: Some(s.anon_key),
        service_key: Some(s.service_key),
        dashboard_username: Some(s.dashboard_username),
        dashboard_password: Some(s.dashboard_password),
        ..rec
    }
}

/// The desired state that the latest stored record asks for (`active` when there is none).
pub open spec fn latest_desired(latest: Option<TenantRecordView>) -> Seq<char> {
    match latest {
        Some(r) => r.desired_state,
        None => "active"@,
    }
}

/// The record a provisioning job writes last: it honours the latest desired state. A paused
/// or deleted tenant ends with status `paused` or `deleted` and no active deployment; any
/// other desired state ends `active` with one deployment.
pub open spec fn finished_record(job: ProvisionJobView, rec: TenantRecordView, latest: Option<TenantRecordView>) -> TenantRecordView {
    let desired = latest_desired(latest);
    let gw = gateway_url_of(job.base_domain, job.tenant_id);
    TenantRecordView {
        status: if desired == "paused"@ {
            "paused"@
        } else if desired == "deleted"@ {
            "deleted"@
        } else {
            "active"@
        },
        active_deployment_count: if desired == "paused"@ || desired == "deleted"@ { 0 } else { 1 },
        desired_state: desired,
        api_url: Some(gw),
        gateway_url: Some(gw),
        console_url: Some(gateway_url_of(trimmed_domain(job.base_domain), job.tenant_id)),
        ..rec
    }
}

/// The answer that reports a record's state.
pub open spec fn provision_ack_of(tenant_id: Seq<char>, status: Seq<char>, rec: TenantRecordView, count: u8) -> ProvisionAckView {
    ProvisionAckView {
        tenant_id: tenant_id,
        status: status,
        api_url: rec.api_url,
        gateway_url: rec.gateway_url,
        console_url: rec.console_url,
        active_deployment_count: count,
    }
}

/// Whether the job runs containers.
pub open spec fn uses_docker(job: ProvisionJobView) -> bool {
    job.backend == "docker"@
}

/// One step of a provisioning job.
pub open spec fn provision_step(job: ProvisionJobView, phase: ProvisionPhaseView, event: JobEventView) -> (ProvisionPhaseView, JobActionView) {
    match (phase, event) {
        (ProvisionPhaseView::Start, JobEventView::Started) => (ProvisionPhaseView::AwaitExisting, JobActionView::Load),
        (ProvisionPhaseView::AwaitExisting, JobEventView::Loaded(existing)) => {
            if existing is Some && (existing->0.status == "deleted"@ || existing->0.desired_state == "deleted"@) {
                (ProvisionPhaseView::Finished, JobActionView::ReplyProvision(
                    provision_ack_of(job.tenant_id, "deleted"@, existing->0, 0)))
            } else if existing is Some && existing->0.status == "active"@ && existing->0.desired_state == "active"@
                && existing->0.active_deployment_count == 1 {
                (ProvisionPhaseView::Finished, JobActionView::ReplyProvision(
                    provision_ack_of(job.tenant_id, existing->0.status, existing->0, existing->0.active_deployment_count)))
            } else {
                let rec = provisioning_record(job, existing);
                (ProvisionPhaseView::AwaitFirstWrite(rec), JobActionView::Write(rec))
            }
        },
        (ProvisionPhaseView::AwaitFirstWrite(rec), JobEventView::Written) => (ProvisionPhaseView::AwaitFreshness(rec), JobActionView::CheckFreshness),
        (ProvisionPhaseView::AwaitFreshness(rec), JobEventView::Freshness(fresh)) => {
            if uses_docker(job) {
                if fresh {
                    (ProvisionPhaseView::AwaitSecrets(rec), JobActionView::GenerateSecrets)
                } else {
                    (ProvisionPhaseView::AwaitStack(rec), JobActionView::ReconcileStack)
                }
            } else {
                (ProvisionPhaseView::AwaitLatest(rec), JobActionView::Load)
            }
        },
        (ProvisionPhaseView::AwaitSecrets(rec), JobEventView::SecretsReady(s)) =>
            (ProvisionPhaseView::AwaitStack(with_secrets(rec, s)), JobActionView::StartStack(s)),
        (ProvisionPhaseView::AwaitStack(rec), JobEventView::StackReady) => (ProvisionPhaseView::AwaitLatest(rec), JobActionView::Load),
        (ProvisionPhaseView::AwaitLatest(rec), JobEventView::Loaded(latest)) => {
            let fin = finished_record(job, rec, latest);
            let desired = latest_desired(latest);
            if uses_docker(job) && desired == "paused"@ {
                (ProvisionPhaseView::AwaitTeardown(fin), JobActionView::StopStack)
            } else if uses_docker(job) && desired == "deleted"@ {
                (ProvisionPhaseView::AwaitTeardown(fin), JobActionView::RemoveStack)
            } else {
                (ProvisionPhaseView::AwaitFinalWrite(fin), JobActionView::Write(fin))
            }
        },
        (ProvisionPhaseView::AwaitTeardown(rec), JobEventView::TornDown) => (ProvisionPhaseView::AwaitFinalWrite(rec), JobActionView::Write(rec)),
        (ProvisionPhaseView::AwaitFinalWrite(rec), JobEventView::Written) => (ProvisionPhaseView::Finished, JobActionView::ReplyProvision(
            provision_ack_of(job.tenant_id, rec.status, rec, rec.active_deployment_count))),
        _ => (ProvisionPhaseView::Finished, JobActionView::Abort),
    }
}


/// `o` if it holds a value, else a copy of `fallback`.
fn or_copy(o: Option<String>, fallback: &Option<String>) -> (r: Option<String>)
    ensures
        opt_view(r) == or_else(opt_view(o), opt_view(*fallback)),
{
    match o {
        Some(v) => Some(v),
        None => copy_opt(fallback),
    }
}

/// A copy of `o` if it holds a value, else `fallback`.
fn copy_or(o: &Option<String>, fallback: Option<String>) -> (r: Option<String>)
    ensures
        opt_view(r) == or_else(opt_view(*o), opt_view(fallback)),
{
    match o {
        Some(v) => Some(copy_str(v.as_str())),
        None => fallback,
    }
}

impl ProvisionJob {
    /// The record written before the stack is touched (see `provisioning_record`).
    pub fn provisioning_record(&self, existing: Option<TenantRecord>) -> (r: TenantRecord)
        ensures
            r@ == provisioning_record(self@, opt_record_view(existing)),
    {
        let base = match existing {
            Some(r) => r,
            None => empty_tenant_record(self.tenant_id.as_str(), self.base_domain.as_str(),
                self.public_web_base_url.as_str()),
        };
        let gw = tenant_gateway_url(self.base_domain.as_str(), self.tenant_id.as_str());
        let console = tenant_console_url(self.base_domain.as_str(), self.tenant_id.as_str());
        let status = if base.active_deployment_count == 1 {
            copy_str("active")
        } else {
            copy_str("provisioning")
        };
        TenantRecord {
            email: or_copy(base.email, &self.email),
            plan: or_copy(base.plan, &self.plan),
            desired_state: copy_str("active"),
            deployment_mode: copy_str("single"),
            status: status,
            api_url: Some(copy_str(gw.as_str())),
            gateway_url: Some(gw),
            console_url: Some(console),
            stripe_checkout_session_id: copy_or(&self.stripe_checkout_session_id,
                base.stripe_checkout_session_id),
            stripe_customer_id: copy_or(&self.stripe_customer_id, base.stripe_customer_id),
            stripe_subscription_id: copy_or(&self.stripe_subscription_id,
                base.stripe_subscription_id),
            ..base
        }
    }

    /// The record written last (see `finished_record`).
    pub fn finished_record(&self, rec: TenantRecord, latest: &Option<TenantRecord>) -> (r:
        TenantRecord)
        ensures
            r@ == finished_record(self@, rec@, opt_record_view(*latest)),
    {
        let desired = match latest {
            Some(l) => copy_str(l.desired_state.as_str()),
            None => copy_str("active"),
        };
        let paused = str_eq(desired.as_str(), "paused");
        let deleted = str_eq(desired.as_str(), "deleted");
        let status = if paused {
            copy_str("paused")
        } else if deleted {
            copy_str("deleted")
        } else {
            copy_str("active")
        };
        let count: u8 = if paused || deleted { 0 } else { 1 };
        let gw = tenant_gateway_url(self.base_domain.as_str(), self.tenant_id.as_str());
        let console = tenant_console_url(self.base_domain.as_str(), self.tenant_id.as_str());
        TenantRecord {
            status: status,
            active_deployment_count: count,
            desired_state: desired,
            api_url: Some(copy_str(gw.as_str())),
            gateway_url: Some(gw),
            console_url: Some(console),
            ..rec
        }
    }

    /// Whether the job runs containers.
    pub fn uses_docker(&self) -> (b: bool)
        ensures
            b == uses_docker(self@),
    {
        str_eq(self.backend.as_str(), "docker")
    }
}

/// The answer that reports a record's state.
fn provision_ack(tenant_id: &str, status: String, rec: &TenantRecord, count: u8) -> (a:
    ProvisionAck)
    ensures
        a@ == provision_ack_of(tenant_id@, status@, rec@, count),
{
    ProvisionAck {
        tenant_id: copy_str(tenant_id),
        status: status,
        api_url: copy_opt(&rec.api_url),
        gateway_url: copy_opt(&rec.gateway_url),
        console_url: copy_opt(&rec.console_url),
        active_deployment_count: count,
    }
}

impl ProvisionPhase {
    /// One step of a provisioning job: the next phase and the action to perform.
    pub fn step(self, job: &ProvisionJob, event: JobEvent) -> (r: (ProvisionPhase, JobAction))
        ensures
            (r.0@, r.1@) == provision_step(job@, self@, event@),
    {
        match (self, event) {
            (ProvisionPhase::Start, JobEvent::Started) => (ProvisionPhase::AwaitExisting, JobAction::Load),
            (ProvisionPhase::AwaitExisting, JobEvent::Loaded(existing)) => {
                match existing {
                    Some(e) => {
                        if str_eq(e.status.as_str(), "deleted") || str_eq(e.desired_state.as_str(), "deleted") {
                            let ack = provision_ack(job.tenant_id.as_str(), copy_str("deleted"), &e, 0);
                            return (ProvisionPhase::Finished, JobAction::ReplyProvision(ack));
                        }
                        if str_eq(e.status.as_str(), "active") && str_eq(e.desired_state.as_str(), "active")
                            && e.active_deployment_count == 1 {
                            let ack = provision_ack(job.tenant_id.as_str(), copy_str(e.status.as_str()), &e,
                                e.active_deployment_count);
                            return (ProvisionPhase::Finished, JobAction::ReplyProvision(ack));
                        }
                        let rec = job.provisioning_record(Some(e));
                        let w = rec.duplicate();
                        (ProvisionPhase::AwaitFirstWrite(rec), JobAction::Write(w))
                    },
                    None => {
                        let rec = job.provisioning_record(None);
                        let w = rec.duplicate();
                        (ProvisionPhase::AwaitFirstWrite(rec), JobAction::Write(w))
                    },
                }
            },
            (ProvisionPhase::AwaitFirstWrite(rec), JobEvent::Written) => (ProvisionPhase::AwaitFreshness(rec), JobAction::CheckFreshness),
            (ProvisionPhase::AwaitFreshness(rec), JobEvent::Freshness(fresh)) => {
                if job.uses_docker() {
                    if fresh {
                        (ProvisionPhase::AwaitSecrets(rec), JobAction::GenerateSecrets)
                    } else {
                        (ProvisionPhase::AwaitStack(rec), JobAction::ReconcileStack)
                    }
                } else {
                    (ProvisionPhase::AwaitLatest(rec), JobAction::Load)
                }
            },
            (ProvisionPhase::AwaitSecrets(rec), JobEvent::SecretsReady(s)) => {
                let rec2 = TenantRecord {
                    anon_key: Some(copy_str(s.anon_key.as_str())),
                    service_key: Some(copy_str(s.service_key.as_str())),
                    dashboard_username: Some(copy_str(s.dashboard_username.as_str())),
                    dashboard_password: Some(copy_str(s.dashboard_password.as_str())),
                    ..rec
                };
                (ProvisionPhase::AwaitStack(rec2), JobAction::StartStack(s))
            },
            (ProvisionPhase::AwaitStack(rec), JobEvent::StackReady) => (ProvisionPhase::AwaitLatest(rec), JobAction::Load),
            (ProvisionPhase::AwaitLatest(rec), JobEvent::Loaded(latest)) => {
                let fin = job.finished_record(rec, &latest);
                let docker = job.uses_docker();
                if docker && str_eq(fin.desired_state.as_str(), "paused") {
                    (ProvisionPhase::AwaitTeardown(fin), JobAction::StopStack)
                } else if docker && str_eq(fin.desired_state.as_str(), "deleted") {
                    (ProvisionPhase::AwaitTeardown(fin), JobAction::RemoveStack)
                } else {
                    let w = fin.duplicate();
                    (ProvisionPhase::AwaitFinalWrite(fin), JobAction::Write(w))
                }
            },
            (ProvisionPhase::AwaitTeardown(rec), JobEvent::TornDown) => {
                let w = rec.duplicate();
                (ProvisionPhase::AwaitFinalWrite(rec), JobAction::Write(w))
            },
            (ProvisionPhase::AwaitFinalWrite(rec), JobEvent::Written) => {
                let ack = provision_ack(job.tenant_id.as_str(), copy_str(rec.status.as_str()), &rec,
                    rec.active_deployment_count);
                (ProvisionPhase::Finished, JobAction::ReplyProvision(ack))
            },
            _ => (ProvisionPhase::Finished, JobAction::Abort),
        }
    }
}


/// How a teardown job leaves the tenant.
pub enum TeardownKind {
    /// Stop the stack; the record ends with this status and desired state `paused`.
    Pause(String),
    /// Remove the stack; the record ends `deleted`.
    Delete,
}

/// The mathematical value of `TeardownKind`.
pub enum TeardownKindView {
    Pause(Seq<char>),
    Delete,
}

impl View for TeardownKind {
    type V = TeardownKindView;

    open spec fn view(&self) -> TeardownKindView {
        match self {
            TeardownKind::Pause(s) => TeardownKindView::Pause(s@),
            TeardownKind::Delete => TeardownKindView::Delete,
        }
    }
}

/// A request to pause or delete a tenant's stack, with the provisioner settings it needs.
pub struct TeardownJob {
    pub tenant_id: String,
    pub base_domain: String,
    pub public_web_base_url: String,
    pub backend: String,
    pub kind: TeardownKind,
}

/// The mathematical value of `TeardownJob`.
pub struct TeardownJobView {
    pub tenant_id: Seq<char>,
    pub base_domain: Seq<char>,
    pub public_web_base_url: Seq<char>,
    pub backend: Seq<char>,
    pub kind: TeardownKindView,
}

impl View for TeardownJob {
    type V = TeardownJobView;

    open spec fn view(&self) -> TeardownJobView {
        TeardownJobView {
            tenant_id: self.tenant_id@,
            base_domain: self.base_domain@,
            public_web_base_url: self.public_web_base_url@,
            backend: self.backend@,
            kind: self.kind@,
        }
    }
}

/// Where a teardown job stands.
pub enum TeardownPhase {
    Start,
    AwaitTeardown,
    AwaitExisting,
    AwaitWrite(TenantRecord),
    Finished,
}

/// The mathematical value of `TeardownPhase`.
pub enum TeardownPhaseView {
    Start,
    AwaitTeardown,
    AwaitExisting,
    AwaitWrite(TenantRecordView),
    Finished,
}

impl View for TeardownPhase {
    type V = TeardownPhaseView;

    open spec fn view(&self) -> TeardownPhaseView {
        match self {
            TeardownPhase::Start => TeardownPhaseView::Start,
            TeardownPhase::AwaitTeardown => TeardownPhaseView::AwaitTeardown,
            TeardownPhase::AwaitExisting => TeardownPhaseView::AwaitExisting,
            TeardownPhase::AwaitWrite(r) => TeardownPhaseView::AwaitWrite(r@),
            TeardownPhase::Finished => TeardownPhaseView::Finished,
        }
    }
}

/// The record a teardown job writes: the stored record (or a fresh one) with nothing
/// running, a single deployment slot, the tenant's URLs, and status and desired state
/// `paused` (with the job's status) or `deleted`.
pub open spec fn teardown_record(job: TeardownJobView, existing: Option<TenantRecordView>) -> TenantRecordView {
    let base = match existing {
        Some(r) => r,
        None => empty_record_of(job.tenant_id, job.base_domain),
    };
    let gw = gateway_url_of(job.base_domain, job.tenant_id);
    TenantRecordView {
        status: match job.kind {
            TeardownKindView::Pause(s) => s,
            TeardownKindView::Delete => "deleted"@,
        },
        desired_state: match job.kind {
            TeardownKindView::Pause(_) => "paused"@,
            TeardownKindView::Delete => "deleted"@,
        },
        deployment_mode: "single"@,
        active_deployment_count: 0,
        api_url: Some(gw),
        gateway_url: Some(gw),
        console_url: Some(gateway_url_of(trimmed_domain(job.base_domain), job.tenant_id)),
        ..base
    }
}

/// One step of a teardown job.
pub open spec fn teardown_step(job: TeardownJobView, phase: TeardownPhaseView, event: JobEventView) -> (TeardownPhaseView, JobActionView) {
    match (phase, event) {
        (TeardownPhaseView::Start, JobEventView::Started) => {
            if job.backend == "docker"@ {
                (TeardownPhaseView::AwaitTeardown, match job.kind {
                    TeardownKindView::Pause(_) => JobActionView::StopStack,
                    TeardownKindView::Delete => JobActionView::RemoveStack,
                })
            } else {
                (TeardownPhaseView::AwaitExisting, JobActionView::Load)
            }
        },
        (TeardownPhaseView::AwaitTeardown, JobEventView::TornDown) => (TeardownPhaseView::AwaitExisting, JobActionView::Load),
        (TeardownPhaseView::AwaitExisting, JobEventView::Loaded(existing)) => {
            let rec = teardown_record(job, existing);
            (TeardownPhaseView::AwaitWrite(rec), JobActionView::Write(rec))
        },
        (TeardownPhaseView::AwaitWrite(rec), JobEventView::Written) => (TeardownPhaseView::Finished, JobActionView::ReplyAction(
            ActionAckView {
                tenant_id: job.tenant_id,
                status: rec.status,
                desired_state: rec.desired_state,
                active_deployment_count: rec.active_deployment_count,
            })),
        _ => (TeardownPhaseView::Finished, JobActionView::Abort),
    }
}

impl TeardownJob {
    /// The record a teardown job writes (see `teardown_record`).
    pub fn teardown_record(&self, existing: Option<TenantRecord>) -> (r: TenantRecord)
        ensures
            r@ == teardown_record(self@, opt_record_view(existing)),
    {
        let base = match existing {
            Some(r) => r,
            None => empty_tenant_record(self.tenant_id.as_str(), self.base_domain.as_str(),
                self.public_web_base_url.as_str()),
        };
        let gw = tenant_gateway_url(self.base_domain.as_str(), self.tenant_id.as_str());
        let console = tenant_console_url(self.base_domain.as_str(), self.tenant_id.as_str());
        let (status, desired) = match &self.kind {
            TeardownKind::Pause(s) => (copy_str(s.as_str()), copy_str("paused")),
            TeardownKind::Delete => (copy_str("deleted"), copy_str("deleted")),
        };
        TenantRecord {
            status: status,
            desired_state: desired,
            deployment_mode: copy_str("single"),
            active_deployment_count: 0,
            api_url: Some(copy_str(gw.as_str())),
            gateway_url: Some(gw),
            console_url: Some(console),
            ..base
        }
    }
}

impl TeardownPhase {
    /// One step of a teardown job: the next phase and the action to perform.
    pub fn step(self, job: &TeardownJob, event: JobEvent) -> (r: (TeardownPhase, JobAction))
        ensures
            (r.0@, r.1@) == teardown_step(job@, self@, event@),
    {
        match (self, event) {
            (TeardownPhase::Start, JobEvent::Started) => {
                if str_eq(job.backend.as_str(), "docker") {
                    let a = match &job.kind {
                        TeardownKind::Pause(_) => JobAction::StopStack,
                        TeardownKind::Delete => JobAction::RemoveStack,
                    };
                    (TeardownPhase::AwaitTeardown, a)
                } else {
                    (TeardownPhase::AwaitExisting, JobAction::Load)
                }
            },
            (TeardownPhase::AwaitTeardown, JobEvent::TornDown) => (TeardownPhase::AwaitExisting, JobAction::Load),
            (TeardownPhase::AwaitExisting, JobEvent::Loaded(existing)) => {
                let rec = job.teardown_record(existing);
                let w = rec.duplicate();
                (TeardownPhase::AwaitWrite(rec), JobAction::Write(w))
            },
            (TeardownPhase::AwaitWrite(rec), JobEvent::Written) => {
                let ack = ActionAck {
                    tenant_id: copy_str(job.tenant_id.as_str()),
                    status: rec.status,
                    desired_state: rec.desired_state,
                    active_deployment_count: rec.active_deployment_count,
                };
                (TeardownPhase::Finished, JobAction::ReplyAction(ack))
            },
            _ => (TeardownPhase::Finished, JobAction::Abort),
        }
    }
}

} // verus!
