//! Properties of the provisioner's jobs that hold across all their steps.

use vstd::prelude::*;
use crate::provisioner::record::TenantRecordView;
use crate::provisioner::requests::{provision_job_of, teardown_job_of, ProvisionerSettings};
use crate::provisioner::naming::{gateway_url_of, prefix_of, slug_of, trimmed_domain};
use crate::provisioner::compose::{
    all_services_are_maps, edge_network_of, realtime_healthcheck_of, patched_compose, patched_service, patched_services,
    service_name, set_string_of, strip_relabel, with_edge_network, ComposeError,
};
use crate::provisioner::yaml::{
    key_index, lemma_insert_unique, lemma_key_index, lemma_key_index_is, lemma_map_get_insert_other,
    lemma_map_get_insert_same, lemma_map_get_remove_same, lemma_map_get_wf, yaml_wf,
    lemma_map_get_remove_other, map_get, map_insert, map_remove, unique_keys, YamlView,
};
use crate::provisioner::jobs::{
    latest_desired, provision_step, teardown_step, uses_docker, JobActionView, JobEventView,
    ProvisionAckView, ProvisionJobView, ProvisionPhaseView, TeardownJobView, TeardownKindView, TeardownPhaseView,
    TenantSecretsView,
};

verus! {

/// A record that runs at most one deployment, in single-deployment mode.
pub open spec fn single_slot(r: TenantRecordView) -> bool {
    r.active_deployment_count <= 1 && r.deployment_mode == "single"@
}

/// Every record a provisioning phase carries is `single_slot`.
pub open spec fn phase_single_slot(p: ProvisionPhaseView) -> bool {
    match p {
        ProvisionPhaseView::AwaitFirstWrite(r) => single_slot(r),
        ProvisionPhaseView::AwaitFreshness(r) => single_slot(r),
        ProvisionPhaseView::AwaitSecrets(r) => single_slot(r),
        ProvisionPhaseView::AwaitStack(r) => single_slot(r),
        ProvisionPhaseView::AwaitLatest(r) => single_slot(r),
        ProvisionPhaseView::AwaitTeardown(r) => single_slot(r),
        ProvisionPhaseView::AwaitFinalWrite(r) => single_slot(r),
        _ => true,
    }
}

/// A stored record read back from the store counts at most one deployment.
pub open spec fn event_from_store_ok(e: JobEventView) -> bool {
    match e {
        JobEventView::Loaded(Some(r)) => r.active_deployment_count <= 1,
        _ => true,
    }
}

/// One active deployment per tenant: as long as the records read from the store count at
/// most one deployment, every record a provisioning job writes is in single-deployment
/// mode and counts at most one deployment, and so does every answer it gives.
pub proof fn law_provision_single_deployment(job: ProvisionJobView, phase: ProvisionPhaseView, event: JobEventView)
    requires
        phase_single_slot(phase),
        event_from_store_ok(event),
    ensures
        phase_single_slot(provision_step(job, phase, event).0),
        provision_step(job, phase, event).1 matches JobActionView::Write(r) ==> single_slot(r),
        provision_step(job, phase, event).1 matches JobActionView::ReplyProvision(a) ==> a.active_deployment_count <= 1,
{
}

/// Pause and delete leave nothing running: the record a teardown job writes is in
/// single-deployment mode with no active deployment, desired state `paused` or `deleted`.
pub proof fn law_teardown_leaves_nothing_running(job: TeardownJobView, phase: TeardownPhaseView, event: JobEventView)
    ensures
        teardown_step(job, phase, event).1 matches JobActionView::Write(r) ==> {
            &&& single_slot(r)
            &&& r.active_deployment_count == 0
            &&& r.desired_state == match job.kind {
                TeardownKindView::Pause(_) => "paused"@,
                TeardownKindView::Delete => "deleted"@,
            }
        },
        teardown_step(job, phase, event).1 matches JobActionView::ReplyAction(a) ==>
            phase matches TeardownPhaseView::AwaitWrite(r) && a.active_deployment_count == r.active_deployment_count,
{
}

/// Whether `r` holds the same tenant data as `e`: identity, contact details, billing ids and
/// stack credentials (everything but the state fields and the URLs).
pub open spec fn same_tenant_data(r: TenantRecordView, e: TenantRecordView) -> bool {
    &&& r.tenant_id == e.tenant_id
    &&& r.email == e.email
    &&& r.plan == e.plan
    &&& r.stripe_checkout_session_id == e.stripe_checkout_session_id
    &&& r.stripe_customer_id == e.stripe_customer_id
    &&& r.stripe_subscription_id == e.stripe_subscription_id
    &&& r.anon_key == e.anon_key
    &&& r.service_key == e.service_key
    &&& r.dashboard_username == e.dashboard_username
    &&& r.dashboard_password == e.dashboard_password
}

/// Pausing or deleting a tenant keeps its data: the record a teardown job writes after
/// reading the stored record `e` holds the same tenant id, contact details, billing ids and
/// credentials as `e`; only the state (status, desired state, single slot with nothing
/// running) and the tenant's URLs are set anew.
pub proof fn law_teardown_keeps_tenant_data(job: TeardownJobView, e: TenantRecordView)
    ensures
        ({
            let (next, action) = teardown_step(job, TeardownPhaseView::AwaitExisting, JobEventView::Loaded(Some(e)));
            &&& next == TeardownPhaseView::AwaitWrite(action->Write_0)
            &&& action matches JobActionView::Write(r) && same_tenant_data(r, e)
                && r.status == match job.kind {
                    TeardownKindView::Pause(s) => s,
                    TeardownKindView::Delete => "deleted"@,
                }
                && r.active_deployment_count == 0
                && r.deployment_mode == "single"@
                && r.gateway_url == Some(gateway_url_of(job.base_domain, job.tenant_id))
                && r.api_url == r.gateway_url
                && r.console_url == Some(gateway_url_of(trimmed_domain(job.base_domain), job.tenant_id))
        }),
{
}

/// A teardown job for a tenant with no stored record writes a record of that tenant with no
/// contact details, billing ids or credentials.
pub proof fn law_teardown_without_record(job: TeardownJobView)
    ensures
        ({
            let (_next, action) = teardown_step(job, TeardownPhaseView::AwaitExisting, JobEventView::Loaded(None));
            &&& action matches JobActionView::Write(r) && r.tenant_id == job.tenant_id
                && r.email is None && r.plan is None && r.anon_key is None && r.service_key is None
                && r.stripe_customer_id is None && r.active_deployment_count == 0
        }),
{
}

/// A provisioning job records the credentials it generated: once the secrets `s` are ready,
/// the job starts the stack with exactly `s`, and the record it carries has `s`'s anon key,
/// service-role key and dashboard login, each in its own field, and otherwise the data of
/// the record it had.
pub proof fn law_provision_records_generated_secrets(job: ProvisionJobView, rec: TenantRecordView, s: TenantSecretsView)
    ensures
        ({
            let (next, action) = provision_step(job, ProvisionPhaseView::AwaitSecrets(rec), JobEventView::SecretsReady(s));
            &&& action == JobActionView::StartStack(s)
            &&& next matches ProvisionPhaseView::AwaitStack(r)
                && r.anon_key == Some(s.anon_key)
                && r.service_key == Some(s.service_key)
                && r.dashboard_username == Some(s.dashboard_username)
                && r.dashboard_password == Some(s.dashboard_password)
                && r.tenant_id == rec.tenant_id && r.email == rec.email && r.plan == rec.plan
                && r.status == rec.status && r.desired_state == rec.desired_state
                && r.stripe_customer_id == rec.stripe_customer_id
        }),
{
}

/// Settling a provisioning job keeps the tenant's data: whatever the latest stored record
/// says, the record the job settles on holds the tenant data and deployment mode of the
/// record it carried, and the tenant's URLs; so do the records it writes.
pub proof fn law_provision_settle_keeps_tenant_data(job: ProvisionJobView, rec: TenantRecordView, latest: Option<TenantRecordView>)
    ensures
        ({
            let (next, action) = provision_step(job, ProvisionPhaseView::AwaitLatest(rec), JobEventView::Loaded(latest));
            &&& settled_record(next) is Some
            &&& same_tenant_data(settled_record(next)->0, rec)
            &&& settled_record(next)->0.deployment_mode == rec.deployment_mode
            &&& settled_record(next)->0.gateway_url == Some(gateway_url_of(job.base_domain, job.tenant_id))
            &&& settled_record(next)->0.api_url == settled_record(next)->0.gateway_url
            &&& settled_record(next)->0.console_url == Some(gateway_url_of(trimmed_domain(job.base_domain), job.tenant_id))
            &&& action matches JobActionView::Write(r) ==> same_tenant_data(r, rec)
        }),
{
}

/// The credentials generated for a fresh stack are those the job finally writes: from the
/// secrets step, through the started stack and the latest stored record, to the stopped or
/// removed stack where the tenant is to be paused or deleted, the record written last holds
/// `s`'s anon key, service-role key and dashboard login, and the tenant's id and contact
/// details as they were.
pub proof fn law_provision_writes_generated_secrets(
    job: ProvisionJobView,
    rec: TenantRecordView,
    s: TenantSecretsView,
    latest: Option<TenantRecordView>,
)
    ensures
        ({
            let (p1, _a1) = provision_step(job, ProvisionPhaseView::AwaitSecrets(rec), JobEventView::SecretsReady(s));
            let (p2, _a2) = provision_step(job, p1, JobEventView::StackReady);
            let (p3, a3) = provision_step(job, p2, JobEventView::Loaded(latest));
            let (_p4, a4) = provision_step(job, p3, JobEventView::TornDown);
            let written = if a3 is Write { a3->Write_0 } else { a4->Write_0 };
            &&& a3 is Write || a4 is Write
            &&& written.anon_key == Some(s.anon_key)
            &&& written.service_key == Some(s.service_key)
            &&& written.dashboard_username == Some(s.dashboard_username)
            &&& written.dashboard_password == Some(s.dashboard_password)
            &&& written.tenant_id == rec.tenant_id
            &&& written.email == rec.email
            &&& written.plan == rec.plan
        }),
{
}

/// The first write of a provisioning job keeps the stored tenant's data: its id, contact
/// details (the request's only fill in what is missing) and credentials; billing ids that
/// the request brings replace the stored ones.
pub proof fn law_provision_first_write_keeps_tenant_data(job: ProvisionJobView, e: TenantRecordView)
    requires
        !(e.status == "deleted"@ || e.desired_state == "deleted"@),
        !(e.status == "active"@ && e.desired_state == "active"@ && e.active_deployment_count == 1),
    ensures
        ({
            let (next, action) = provision_step(job, ProvisionPhaseView::AwaitExisting, JobEventView::Loaded(Some(e)));
            &&& action matches JobActionView::Write(r)
                && next == ProvisionPhaseView::AwaitFirstWrite(r)
                && r.tenant_id == e.tenant_id
                && r.email == (if e.email is Some { e.email } else { job.email })
                && r.plan == (if e.plan is Some { e.plan } else { job.plan })
                && r.anon_key == e.anon_key
                && r.service_key == e.service_key
                && r.dashboard_username == e.dashboard_username
                && r.dashboard_password == e.dashboard_password
                && r.stripe_customer_id == (if job.stripe_customer_id is Some { job.stripe_customer_id } else { e.stripe_customer_id })
                && r.desired_state == "active"@
                && r.status == (if e.active_deployment_count == 1 { "active"@ } else { "provisioning"@ })
                && r.deployment_mode == "single"@
                && r.active_deployment_count == e.active_deployment_count
                && r.gateway_url == Some(gateway_url_of(job.base_domain, job.tenant_id))
                && r.api_url == r.gateway_url
                && r.console_url == Some(gateway_url_of(trimmed_domain(job.base_domain), job.tenant_id))
        }),
{
}

/// Jobs carry what they were made with: a provisioning job the tenant id, contact details
/// and billing ids it was given, a teardown job the tenant id and kind, and both the
/// provisioner's domain, web base URL and backend.
pub proof fn law_request_jobs_carry_their_details(
    settings: ProvisionerSettings,
    tenant_id: Seq<char>,
    email: Option<Seq<char>>,
    plan: Option<Seq<char>>,
    session: Option<Seq<char>>,
    customer: Option<Seq<char>>,
    subscription: Option<Seq<char>>,
    kind: TeardownKindView,
)
    ensures
        ({
            let p = provision_job_of(settings, tenant_id, email, plan, session, customer, subscription);
            let t = teardown_job_of(settings, tenant_id, kind);
            &&& p.tenant_id == tenant_id && p.email == email && p.plan == plan
            &&& p.stripe_checkout_session_id == session && p.stripe_customer_id == customer
            &&& p.stripe_subscription_id == subscription
            &&& p.base_domain == settings.base_domain@ && p.public_web_base_url == settings.public_web_base_url@
            &&& p.backend == settings.backend@
            &&& t.tenant_id == tenant_id && t.kind == kind && t.base_domain == settings.base_domain@
            &&& t.public_web_base_url == settings.public_web_base_url@ && t.backend == settings.backend@
        }),
{
}

/// A canceled subscription suspends the tenant: the teardown job for it writes the tenant
/// with status `suspended`, desired state `paused` and nothing running, keeping the stored
/// tenant data.
pub proof fn law_canceled_subscription_suspends(settings: ProvisionerSettings, tenant_id: Seq<char>, existing: Option<TenantRecordView>)
    ensures
        ({
            let job = teardown_job_of(settings, tenant_id, TeardownKindView::Pause("suspended"@));
            let (_next, action) = teardown_step(job, TeardownPhaseView::AwaitExisting, JobEventView::Loaded(existing));
            &&& action matches JobActionView::Write(r) && r.status == "suspended"@ && r.desired_state == "paused"@
                && r.active_deployment_count == 0
                && (existing matches Some(e) ==> same_tenant_data(r, e))
                && (existing is None ==> r.tenant_id == tenant_id)
        }),
{
}

/// An activated subscription records its billing ids: the first record the provisioning job
/// for it writes holds the checkout session, customer and subscription ids that billing
/// reported (the stored ones where billing reported none), and the stored tenant's contact
/// details.
pub proof fn law_billing_activation_records_ids(
    settings: ProvisionerSettings,
    tenant_id: Seq<char>,
    session: Option<Seq<char>>,
    customer: Option<Seq<char>>,
    subscription: Option<Seq<char>>,
    e: TenantRecordView,
)
    requires
        !(e.status == "deleted"@ || e.desired_state == "deleted"@),
        !(e.status == "active"@ && e.desired_state == "active"@ && e.active_deployment_count == 1),
    ensures
        ({
            let job = provision_job_of(settings, tenant_id, None, None, session, customer, subscription);
            let (_next, action) = provision_step(job, ProvisionPhaseView::AwaitExisting, JobEventView::Loaded(Some(e)));
            &&& action matches JobActionView::Write(r)
                && r.stripe_checkout_session_id == (if session is Some { session } else { e.stripe_checkout_session_id })
                && r.stripe_customer_id == (if customer is Some { customer } else { e.stripe_customer_id })
                && r.stripe_subscription_id == (if subscription is Some { subscription } else { e.stripe_subscription_id })
                && r.email == e.email && r.plan == e.plan && r.tenant_id == e.tenant_id
        }),
{
}

/// A provisioning job's answer after its final write reports the job's tenant with the
/// status, deployment count and URLs of the record it wrote.
pub proof fn law_provision_answer_reports_written_record(job: ProvisionJobView, rec: TenantRecordView)
    ensures
        ({
            let (next, action) = provision_step(job, ProvisionPhaseView::AwaitFinalWrite(rec), JobEventView::Written);
            &&& next == ProvisionPhaseView::Finished
            &&& action matches JobActionView::ReplyProvision(a) && a.tenant_id == job.tenant_id
                && a.status == rec.status && a.active_deployment_count == rec.active_deployment_count
                && a.api_url == rec.api_url && a.gateway_url == rec.gateway_url && a.console_url == rec.console_url
        }),
{
}

/// The stack work after the first write: with the docker backend a fresh stack gets new
/// secrets and an existing one is reconciled as it is; without docker there is no stack
/// work and the job goes on to read the latest record. Once secrets are ready the stack is
/// started with them, and once it is up the latest record is read.
pub proof fn law_provision_stack_work(job: ProvisionJobView, rec: TenantRecordView, fresh: bool)
    ensures
        ({
            let (next, action) = provision_step(job, ProvisionPhaseView::AwaitFreshness(rec), JobEventView::Freshness(fresh));
            &&& uses_docker(job) && fresh ==> next == ProvisionPhaseView::AwaitSecrets(rec)
                && action == JobActionView::GenerateSecrets
            &&& uses_docker(job) && !fresh ==> next == ProvisionPhaseView::AwaitStack(rec)
                && action == JobActionView::ReconcileStack
            &&& !uses_docker(job) ==> next == ProvisionPhaseView::AwaitLatest(rec) && action == JobActionView::Load
        }),
        provision_step(job, ProvisionPhaseView::AwaitStack(rec), JobEventView::StackReady)
            == (ProvisionPhaseView::AwaitLatest(rec), JobActionView::Load),
        provision_step(job, ProvisionPhaseView::AwaitFirstWrite(rec), JobEventView::Written)
            == (ProvisionPhaseView::AwaitFreshness(rec), JobActionView::CheckFreshness),
{
}

/// A teardown job with the docker backend stops (pause) or removes (delete) the stack
/// before it reads and writes the record; without docker it reads the record at once. Its
/// answer after the write reports the job's tenant with the written status, desired state
/// and deployment count.
pub proof fn law_teardown_order_and_answer(job: TeardownJobView, rec: TenantRecordView)
    ensures
        ({
            let (p1, a1) = teardown_step(job, TeardownPhaseView::Start, JobEventView::Started);
            &&& job.backend == "docker"@ ==> p1 == TeardownPhaseView::AwaitTeardown && a1 == match job.kind {
                TeardownKindView::Pause(_) => JobActionView::StopStack,
                TeardownKindView::Delete => JobActionView::RemoveStack,
            }
            &&& job.backend != "docker"@ ==> p1 == TeardownPhaseView::AwaitExisting && a1 == JobActionView::Load
        }),
        teardown_step(job, TeardownPhaseView::AwaitTeardown, JobEventView::TornDown)
            == (TeardownPhaseView::AwaitExisting, JobActionView::Load),
        ({
            let (p, a) = teardown_step(job, TeardownPhaseView::AwaitWrite(rec), JobEventView::Written);
            &&& p == TeardownPhaseView::Finished
            &&& a matches JobActionView::ReplyAction(ack) && ack.tenant_id == job.tenant_id && ack.status == rec.status
                && ack.desired_state == rec.desired_state && ack.active_deployment_count == rec.active_deployment_count
        }),
{
}

/// The record a provisioning job settles on after the stack work.
pub open spec fn settled_record(p: ProvisionPhaseView) -> Option<TenantRecordView> {
    match p {
        ProvisionPhaseView::AwaitTeardown(r) => Some(r),
        ProvisionPhaseView::AwaitFinalWrite(r) => Some(r),
        _ => None,
    }
}

/// A provisioning job honours the latest desired state it reads after starting the stack:
/// `paused` ends paused and `deleted` ends deleted, both with nothing running (and, with
/// the docker backend, the stack stopped or removed first); any other desired state ends
/// active with exactly one deployment.
pub proof fn law_provision_honours_latest_desired_state(
    job: ProvisionJobView,
    rec: TenantRecordView,
    latest: Option<TenantRecordView>,
)
    ensures
        ({
            let (next, action) = provision_step(job, ProvisionPhaseView::AwaitLatest(rec), JobEventView::Loaded(latest));
            let desired = latest_desired(latest);
            &&& settled_record(next) is Some
            &&& settled_record(next)->0.desired_state == desired
            &&& desired == "paused"@ ==> settled_record(next)->0.status == "paused"@
                && settled_record(next)->0.active_deployment_count == 0
            &&& desired == "deleted"@ ==> settled_record(next)->0.status == "deleted"@
                && settled_record(next)->0.active_deployment_count == 0
            &&& desired != "paused"@ && desired != "deleted"@ ==> settled_record(next)->0.status == "active"@
                && settled_record(next)->0.active_deployment_count == 1
            &&& (uses_docker(job) && desired == "paused"@) ==> action == JobActionView::StopStack
            &&& (uses_docker(job) && desired == "deleted"@) ==> action == JobActionView::RemoveStack
            &&& (!uses_docker(job) || (desired != "paused"@ && desired != "deleted"@))
                ==> action == JobActionView::Write(settled_record(next)->0)
        }),
{
    reveal_strlit("paused");
    reveal_strlit("deleted");
}

/// A deleted tenant is never brought back by provisioning: when the stored record is
/// deleted, or asks to be, the job answers `deleted` with nothing running and does no other
/// work.
pub proof fn law_deleted_tenant_is_not_provisioned(job: ProvisionJobView, existing: TenantRecordView)
    requires
        existing.status == "deleted"@ || existing.desired_state == "deleted"@,
    ensures
        ({
            let (next, action) = provision_step(job, ProvisionPhaseView::AwaitExisting, JobEventView::Loaded(Some(existing)));
            &&& next == ProvisionPhaseView::Finished
            &&& action matches JobActionView::ReplyProvision(a) && a.status == "deleted"@
                && a.active_deployment_count == 0 && a.tenant_id == job.tenant_id
        }),
{
}

/// Provisioning is idempotent: a tenant that is already active with its one deployment is
/// answered as it stands, without writing or touching the stack.
pub proof fn law_active_tenant_is_left_as_is(job: ProvisionJobView, existing: TenantRecordView)
    requires
        existing.status == "active"@,
        existing.desired_state == "active"@,
        existing.active_deployment_count == 1,
    ensures
        ({
            let (next, action) = provision_step(job, ProvisionPhaseView::AwaitExisting, JobEventView::Loaded(Some(existing)));
            &&& next == ProvisionPhaseView::Finished
            &&& action matches JobActionView::ReplyProvision(a) && a.status == "active"@
                && a.active_deployment_count == 1 && a.gateway_url == existing.gateway_url
                && a.tenant_id == job.tenant_id
        }),
{
    reveal_strlit("active");
    reveal_strlit("deleted");
    assert("active"@.len() != "deleted"@.len());
}


/// The tenant's Traefik route leads to its own gateway: in the tenant's stack the upstream
/// Kong service, whose container is `supabase-kong`, runs as `{prefix}-supabase-kong`, the
/// container that `tenant_kong_container_name` names and that `traefik_route_of` sends the
/// tenant's host to.
pub proof fn law_route_targets_tenant_kong(svc: Seq<(YamlView, YamlView)>, tenant_id: Seq<char>, rtid: Seq<char>)
    requires
        unique_keys(svc),
        map_get(svc, "container_name"@) == Some(YamlView::Str("supabase-kong"@)),
    ensures
        map_get(patched_service(YamlView::Str("kong"@), svc, prefix_of(tenant_id), rtid), "container_name"@)
            == Some(YamlView::Str(prefix_of(tenant_id) + "-supabase-kong"@)),
{
    reveal_strlit("kong");
    reveal_strlit("realtime");
    reveal_strlit("supavisor");
    reveal_strlit("container_name");
    reveal_strlit("ports");
    reveal_strlit("volumes");
    reveal_strlit("networks");
    reveal_strlit("-");
    reveal_strlit("supabase-kong");
    reveal_strlit("-supabase-kong");
    let cn = "container_name"@;
    let tprefix = prefix_of(tenant_id);
    let name = service_name(YamlView::Str("kong"@));
    assert(name == "kong"@);
    assert(name != "realtime"@);
    let val = YamlView::Str(tprefix + "-"@ + "supabase-kong"@);
    assert(tprefix + "-"@ + "supabase-kong"@ =~= tprefix + "-supabase-kong"@);
    let s1 = map_insert(svc, cn, val);
    lemma_map_get_insert_same(svc, cn, val);
    lemma_insert_unique(svc, cn, val);
    assert(cn.len() == 14);
    assert(cn != "ports"@) by {
        assert("ports"@.len() == 5);
    }
    assert(cn != "volumes"@) by {
        assert("volumes"@.len() == 7);
    }
    assert(cn != "networks"@);
    let s2 = map_remove(s1, "ports"@);
    lemma_map_get_remove_other(s1, cn, "ports"@);
    match map_get(s2, "volumes"@) {
        Some(YamlView::Sequence(items)) => {
            let v = YamlView::Sequence(Seq::new(items.len(), |i: int| strip_relabel(items[i])));
            lemma_map_get_insert_other(s2, cn, "volumes"@, v);
            let s3 = map_insert(s2, "volumes"@, v);
            lemma_map_get_insert_other(s3, cn, "networks"@, YamlView::Sequence(seq![YamlView::Str("default"@), YamlView::Str("edge"@)]));
        },
        _ => {
            lemma_map_get_insert_other(s2, cn, "networks"@, YamlView::Sequence(seq![YamlView::Str("default"@), YamlView::Str("edge"@)]));
        },
    }
}


/// Every service of a tenant's stack is the tenant's own: Realtime's container is named
/// `{realtime id}.supabase-realtime`, any other container carries the tenant prefix before
/// its upstream name (or the service name where it has none); Kong and Supavisor publish no
/// host ports while the other services keep theirs; and Kong joins the `default` and
/// `edge` networks.
pub proof fn law_service_belongs_to_tenant(key: YamlView, svc: Seq<(YamlView, YamlView)>, tprefix: Seq<char>, rtid: Seq<char>)
    requires
        unique_keys(svc),
    ensures
        ({
            let out = patched_service(key, svc, tprefix, rtid);
            let name = service_name(key);
            &&& name == "realtime"@ ==> map_get(out, "container_name"@) == Some(YamlView::Str(rtid + ".supabase-realtime"@))
            &&& name != "realtime"@ ==> map_get(out, "container_name"@) == Some(YamlView::Str(tprefix + "-"@
                + match map_get(svc, "container_name"@) {
                    Some(YamlView::Str(e)) => e,
                    _ => name,
                }))
            &&& (name == "kong"@ || name == "supavisor"@) ==> map_get(out, "ports"@) is None
            &&& !(name == "kong"@ || name == "supavisor"@) ==> map_get(out, "ports"@) == map_get(svc, "ports"@)
            &&& name == "kong"@ ==> map_get(out, "networks"@)
                == Some(YamlView::Sequence(seq![YamlView::Str("default"@), YamlView::Str("edge"@)]))
        }),
{
    reveal_strlit("container_name");
    reveal_strlit("ports");
    reveal_strlit("volumes");
    reveal_strlit("healthcheck");
    reveal_strlit("networks");
    let cn = "container_name"@;
    let ports = "ports"@;
    let vols = "volumes"@;
    let hc = "healthcheck"@;
    let nets = "networks"@;
    assert(cn.len() == 14 && ports.len() == 5 && vols.len() == 7 && hc.len() == 11 && nets.len() == 8);
    assert(cn != ports && cn != vols && cn != hc && cn != nets);
    assert(ports != vols && ports != hc && ports != nets);
    assert(nets != vols && nets != hc);
    let name = service_name(key);
    let v1 = if name == "realtime"@ {
        YamlView::Str(rtid + ".supabase-realtime"@)
    } else {
        match map_get(svc, cn) {
            Some(YamlView::Str(existing)) => YamlView::Str(tprefix + "-"@ + existing),
            _ => YamlView::Str(tprefix + "-"@ + name),
        }
    };
    let s1 = map_insert(svc, cn, v1);
    lemma_map_get_insert_same(svc, cn, v1);
    lemma_map_get_insert_other(svc, ports, cn, v1);
    lemma_insert_unique(svc, cn, v1);
    let drop = name == "kong"@ || name == "supavisor"@;
    let s2 = if drop { map_remove(s1, ports) } else { s1 };
    if drop {
        lemma_map_get_remove_other(s1, cn, ports);
        lemma_map_get_remove_same(s1, ports);
    }
    let s3 = match map_get(s2, vols) {
        Some(YamlView::Sequence(items)) => map_insert(s2, vols, YamlView::Sequence(
            Seq::new(items.len(), |i: int| strip_relabel(items[i])))),
        _ => s2,
    };
    match map_get(s2, vols) {
        Some(YamlView::Sequence(items)) => {
            let v = YamlView::Sequence(Seq::new(items.len(), |i: int| strip_relabel(items[i])));
            lemma_map_get_insert_other(s2, cn, vols, v);
            lemma_map_get_insert_other(s2, ports, vols, v);
        },
        _ => {},
    }
    let s4 = if name == "realtime"@ {
        match map_get(s3, hc) {
            Some(h) => map_insert(s3, hc, realtime_healthcheck_of(h, rtid)),
            None => s3,
        }
    } else {
        s3
    };
    if name == "realtime"@ {
        match map_get(s3, hc) {
            Some(h) => {
                lemma_map_get_insert_other(s3, cn, hc, realtime_healthcheck_of(h, rtid));
                lemma_map_get_insert_other(s3, ports, hc, realtime_healthcheck_of(h, rtid));
            },
            None => {},
        }
    }
    let nv = YamlView::Sequence(seq![YamlView::Str("default"@), YamlView::Str("edge"@)]);
    if name == "kong"@ {
        lemma_map_get_insert_other(s4, cn, nets, nv);
        lemma_map_get_insert_other(s4, ports, nets, nv);
        lemma_map_get_insert_same(s4, nets, nv);
    }
    assert(patched_service(key, svc, tprefix, rtid) == if name == "kong"@ { map_insert(s4, nets, nv) } else { s4 });
}


/// The actions a provisioning job takes from `phase` on, one for each event in turn.
pub open spec fn provision_actions(job: ProvisionJobView, phase: ProvisionPhaseView, events: Seq<JobEventView>) -> Seq<JobActionView>
    decreases events.len(),
{
    if events.len() == 0 {
        seq![]
    } else {
        let (next, action) = provision_step(job, phase, events[0]);
        seq![action] + provision_actions(job, next, events.skip(1))
    }
}

/// A record a job settles on: single-deployment mode, at most one deployment, and one
/// exactly when it is `active`.
pub open spec fn settled_ok(r: TenantRecordView) -> bool {
    &&& r.deployment_mode == "single"@
    &&& r.active_deployment_count <= 1
    &&& (r.active_deployment_count == 1 <==> r.status == "active"@)
}

/// An answer that counts at most one deployment, and one exactly when it is `active`.
pub open spec fn ack_ok(a: ProvisionAckView) -> bool {
    a.active_deployment_count <= 1 && (a.active_deployment_count == 1 <==> a.status == "active"@)
}

/// What each phase of a provisioning job carries.
spec fn job_inv(p: ProvisionPhaseView) -> bool {
    match p {
        ProvisionPhaseView::Start | ProvisionPhaseView::AwaitExisting | ProvisionPhaseView::Finished => true,
        ProvisionPhaseView::AwaitTeardown(r) => settled_ok(r),
        ProvisionPhaseView::AwaitFinalWrite(r) => settled_ok(r),
        ProvisionPhaseView::AwaitFirstWrite(r) => r.deployment_mode == "single"@,
        ProvisionPhaseView::AwaitFreshness(r) => r.deployment_mode == "single"@,
        ProvisionPhaseView::AwaitSecrets(r) => r.deployment_mode == "single"@,
        ProvisionPhaseView::AwaitStack(r) => r.deployment_mode == "single"@,
        ProvisionPhaseView::AwaitLatest(r) => r.deployment_mode == "single"@,
    }
}

/// One step keeps `job_inv`; an answer is `ack_ok` and comes either before anything was
/// written or right after the final write of the record it reports; the job enters its
/// final write by writing that record; only the first and the final write write.
proof fn lemma_job_step(job: ProvisionJobView, p: ProvisionPhaseView, e: JobEventView)
    requires
        job_inv(p),
    ensures
        ({
            let (next, action) = provision_step(job, p, e);
            &&& job_inv(next)
            &&& !(next is Start)
            &&& (next is AwaitExisting ==> p is Start && action == JobActionView::Load)
            &&& (action matches JobActionView::ReplyProvision(a) ==> ack_ok(a) && (p is AwaitExisting
                || (p matches ProvisionPhaseView::AwaitFinalWrite(r) && a.status == r.status
                    && a.active_deployment_count == r.active_deployment_count)))
            &&& (next matches ProvisionPhaseView::AwaitFinalWrite(r) ==> action == JobActionView::Write(r))
        }),
{
    reveal_strlit("paused");
    reveal_strlit("deleted");
    reveal_strlit("active");
    assert("active"@.len() != "deleted"@.len());
    assert("active"@ != "paused"@) by {
        assert("active"@[0] != "paused"@[0]);
    }
}

/// The action before index `i`: the one given for `i == 0`, else the previous one.
pub open spec fn previous_action(last: Option<JobActionView>, acts: Seq<JobActionView>, i: int) -> Option<JobActionView> {
    if i == 0 {
        last
    } else {
        Some(acts[i - 1])
    }
}

/// Whether `prev` wrote, in single-deployment mode, the status and deployment count that
/// the answer `a` reports.
pub open spec fn write_reports(prev: Option<JobActionView>, a: ProvisionAckView) -> bool {
    match prev {
        Some(JobActionView::Write(r)) => r.deployment_mode == "single"@ && r.status == a.status
            && r.active_deployment_count == a.active_deployment_count,
        _ => false,
    }
}

/// Whether none of the first `i` actions writes.
pub open spec fn no_write_before(acts: Seq<JobActionView>, i: int) -> bool {
    forall|j: int| 0 <= j < i ==> !(#[trigger] acts[j] is Write)
}

/// Whether the `i`-th action, if it is an answer, is `ack_ok` and reports what was just
/// written, or comes before anything was written (`wrote` says whether something was
/// written before the first action).
pub open spec fn reply_ok(acts: Seq<JobActionView>, i: int, last: Option<JobActionView>, wrote: bool) -> bool {
    match acts[i] {
        JobActionView::ReplyProvision(a) => ack_ok(a) && (write_reports(previous_action(last, acts, i), a)
            || (!wrote && no_write_before(acts, i))),
        _ => true,
    }
}

proof fn lemma_job_run(
    job: ProvisionJobView,
    p: ProvisionPhaseView,
    events: Seq<JobEventView>,
    last: Option<JobActionView>,
    wrote: bool,
)
    requires
        job_inv(p),
        (p is Start || p is AwaitExisting) ==> !wrote,
        p matches ProvisionPhaseView::AwaitFinalWrite(r) ==> last == Some(JobActionView::Write(r)),
    ensures
        forall|i: int| 0 <= i < provision_actions(job, p, events).len()
            ==> #[trigger] reply_ok(provision_actions(job, p, events), i, last, wrote),
    decreases events.len(),
{
    if events.len() > 0 {
        let (next, action) = provision_step(job, p, events[0]);
        lemma_job_step(job, p, events[0]);
        let wrote2 = wrote || action is Write;
        lemma_job_run(job, next, events.skip(1), Some(action), wrote2);
        let rest = provision_actions(job, next, events.skip(1));
        let acts = provision_actions(job, p, events);
        assert(acts == seq![action] + rest);
        assert forall|i: int| 0 <= i < acts.len() implies #[trigger] reply_ok(acts, i, last, wrote) by {
            if i > 0 {
                assert(acts[i] == rest[i - 1]);
                assert(previous_action(Some(action), rest, i - 1) == previous_action(last, acts, i));
                assert(reply_ok(rest, i - 1, Some(action), wrote2));
                if no_write_before(rest, i - 1) && !wrote2 {
                    assert forall|j: int| 0 <= j < i implies !(#[trigger] acts[j] is Write) by {
                        if j > 0 {
                            assert(acts[j] == rest[j - 1]);
                        }
                    }
                }
            }
        }
    }
}

/// One active deployment per tenant, over a whole provisioning job and whatever the store
/// holds: whatever events the service reports, every answer the job gives counts at most
/// one deployment, one exactly when the tenant is `active`; and the answer either comes
/// before the job wrote anything, or right after it wrote, in single-deployment mode, the
/// very status and deployment count it reports.
pub proof fn law_provision_job_single_deployment(job: ProvisionJobView, events: Seq<JobEventView>)
    ensures
        forall|i: int| 0 <= i < provision_actions(job, ProvisionPhaseView::Start, events).len()
            ==> #[trigger] reply_ok(provision_actions(job, ProvisionPhaseView::Start, events), i, None, false),
{
    lemma_job_run(job, ProvisionPhaseView::Start, events, None, false);
}


/// The tenant's Traefik route leads to its own gateway, for a whole Compose document: for
/// any well-formed document (as every parsed YAML document is) that is a mapping whose
/// `networks` is absent or a mapping and whose `services` is a mapping of mappings with a
/// `kong` service whose container is `supabase-kong`, the adapted document's `kong`
/// service runs as `{prefix}-supabase-kong`, the container that
/// `tenant_kong_container_name` names and that `traefik_route_of` sends the tenant's host
/// to.
pub proof fn law_compose_route_targets_tenant_kong(
    top: Seq<(YamlView, YamlView)>,
    svcs: Seq<(YamlView, YamlView)>,
    kong: Seq<(YamlView, YamlView)>,
    tenant_id: Seq<char>,
    network: Seq<char>,
    rtid: Seq<char>,
)
    requires
        map_get(top, "networks"@) is None || map_get(top, "networks"@) matches Some(YamlView::Mapping(_)),
        map_get(top, "services"@) == Some(YamlView::Mapping(svcs)),
        all_services_are_maps(svcs),
        yaml_wf(YamlView::Mapping(top)),
        map_get(svcs, "kong"@) == Some(YamlView::Mapping(kong)),
        map_get(kong, "container_name"@) == Some(YamlView::Str("supabase-kong"@)),
    ensures
        ({
            let r = patched_compose(YamlView::Mapping(top), tenant_id, network, rtid);
            &&& r matches Ok(YamlView::Mapping(out))
            &&& map_get(r->Ok_0->Mapping_0, "services"@) matches Some(YamlView::Mapping(ps))
            &&& map_get(ps, "kong"@) matches Some(YamlView::Mapping(k))
            &&& map_get(k, "container_name"@) == Some(YamlView::Str(prefix_of(tenant_id) + "-supabase-kong"@))
        }),
{
    lemma_map_get_wf(top, "services"@);
    lemma_map_get_wf(svcs, "kong"@);
    assert(unique_keys(kong));
    reveal_strlit("name");
    reveal_strlit("networks");
    reveal_strlit("services");
    reveal_strlit("edge");
    assert("name"@ != "networks"@) by {
        assert("name"@[1] != "networks"@[1]);
    }
    assert("name"@ != "services"@) by {
        assert("name"@[0] != "services"@[0]);
    }
    assert("networks"@ != "services"@) by {
        assert("networks"@[0] != "services"@[0]);
    }
    let name_value = YamlView::Str("tenant-"@ + slug_of(tenant_id));
    let m = map_insert(top, "name"@, name_value);
    lemma_map_get_insert_other(top, "networks"@, "name"@, name_value);
    lemma_map_get_insert_other(top, "services"@, "name"@, name_value);
    let empty = YamlView::Mapping(Seq::<(YamlView, YamlView)>::empty());
    let m1 = if map_get(m, "networks"@) is None { map_insert(m, "networks"@, empty) } else { m };
    if map_get(m, "networks"@) is None {
        lemma_map_get_insert_same(m, "networks"@, empty);
        lemma_map_get_insert_other(m, "services"@, "networks"@, empty);
    }
    assert(map_get(m1, "services"@) == Some(YamlView::Mapping(svcs)));
    let n = map_get(m1, "networks"@)->0->Mapping_0;
    let nets = YamlView::Mapping(map_insert(n, "edge"@, edge_network_of(network)));
    let top2 = map_insert(m1, "networks"@, nets);
    lemma_map_get_insert_other(m1, "services"@, "networks"@, nets);
    assert(with_edge_network(set_string_of(YamlView::Mapping(top), "name"@, "tenant-"@ + slug_of(tenant_id)), network)
        == Ok::<YamlView, ComposeError>(YamlView::Mapping(top2)));
    let ps = patched_services(svcs, prefix_of(tenant_id), rtid);
    let out = map_insert(top2, "services"@, YamlView::Mapping(ps));
    lemma_map_get_insert_same(top2, "services"@, YamlView::Mapping(ps));
    // the patched services keep every key in its place
    lemma_key_index(svcs, "kong"@);
    let i = key_index(svcs, "kong"@)->0;
    assert(ps.len() == svcs.len());
    assert forall|j: int| 0 <= j < ps.len() implies #[trigger] ps[j].0 == svcs[j].0 by {}
    lemma_key_index_is(ps, "kong"@, i);
    assert(svcs[i].1 == YamlView::Mapping(kong));
    assert(svcs[i].0 == YamlView::Str("kong"@));
    law_route_targets_tenant_kong(kong, tenant_id, rtid);
}

} // verus!
