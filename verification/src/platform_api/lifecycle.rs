//! Pause, resume, delete and reconcile requests on a tenant's deployment.

use vstd::prelude::*;
use crate::text::{copy_str, str_eq};
use crate::platform_api::record::{TenantRecord, TenantRecordView};
use crate::platform_api::errors::{error_code_of, ApiError};

verus! {

/// A lifecycle request on a tenant's deployment.
#[derive(Clone, Copy, PartialEq, Eq, Structural)]
pub enum LifecycleAction {
    Pause,
    Resume,
    Delete,
    Reconcile,
}

/// The messaging subjects of the lifecycle requests.
pub struct LifecycleSubjects {
    pub pause: String,
    pub resume: String,
    pub delete: String,
    pub reconcile: String,
}

/// The desired state a request asks for.
pub open spec fn desired_state_of(action: LifecycleAction) -> Seq<char> {
    match action {
        LifecycleAction::Pause => "paused"@,
        LifecycleAction::Resume | LifecycleAction::Reconcile => "active"@,
        LifecycleAction::Delete => "deleted"@,
    }
}

/// The status a request moves the record to: a pause of a tenant with nothing running that
/// is waiting for checkout or already paused is `paused`, any other pause `pausing`; a
/// resume of an active tenant with its deployment is `active`, any other `provisioning`; a
/// reconcile is `reconciling`; a delete is `deleting`, or stays `deleted`.
pub open spec fn next_status_of(action: LifecycleAction, rec: TenantRecordView) -> Seq<char> {
    match action {
        LifecycleAction::Pause => if rec.active_deployment_count == 0 && (rec.status == "pending_checkout"@
            || rec.status == "checkout_created"@ || rec.status == "paused"@ || rec.status
            == "pause_requested"@) {
            "paused"@
        } else {
            "pausing"@
        },
        LifecycleAction::Resume => if rec.status == "active"@ && rec.active_deployment_count == 1 {
            "active"@
        } else {
            "provisioning"@
        },
        LifecycleAction::Reconcile => "reconciling"@,
        LifecycleAction::Delete => if rec.status == "deleted"@ {
            "deleted"@
        } else {
            "deleting"@
        },
    }
}

impl LifecycleAction {
    /// The subject the request is published on.
    pub fn subject<'a>(&self, subjects: &'a LifecycleSubjects) -> (s: &'a str)
        ensures
            s@ == match *self {
                LifecycleAction::Pause => subjects.pause@,
                LifecycleAction::Resume => subjects.resume@,
                LifecycleAction::Delete => subjects.delete@,
                LifecycleAction::Reconcile => subjects.reconcile@,
            },
    {
        match self {
            LifecycleAction::Pause => subjects.pause.as_str(),
            LifecycleAction::Resume => subjects.resume.as_str(),
            LifecycleAction::Delete => subjects.delete.as_str(),
            LifecycleAction::Reconcile => subjects.reconcile.as_str(),
        }
    }

    /// The desired state the request asks for.
    pub fn desired_state(&self) -> (s: &'static str)
        ensures
            s@ == desired_state_of(*self),
    {
        match self {
            LifecycleAction::Pause => "paused",
            LifecycleAction::Resume | LifecycleAction::Reconcile => "active",
            LifecycleAction::Delete => "deleted",
        }
    }

    /// The status the request moves the record to (see `next_status_of`).
    pub fn next_status(&self, rec: &TenantRecord) -> (s: String)
        ensures
            s@ == next_status_of(*self, rec@),
    {
        match self {
            LifecycleAction::Pause => {
                let s = rec.status.as_str();
                if rec.active_deployment_count == 0 && (str_eq(s, "pending_checkout") || str_eq(
                    s,
                    "checkout_created",
                ) || str_eq(s, "paused") || str_eq(s, "pause_requested")) {
                    copy_str("paused")
                } else {
                    copy_str("pausing")
                }
            },
            LifecycleAction::Resume => {
                if str_eq(rec.status.as_str(), "active") && rec.active_deployment_count == 1 {
                    copy_str("active")
                } else {
                    copy_str("provisioning")
                }
            },
            LifecycleAction::Reconcile => copy_str("reconciling"),
            LifecycleAction::Delete => {
                if str_eq(rec.status.as_str(), "deleted") {
                    copy_str("deleted")
                } else {
                    copy_str("deleting")
                }
            },
        }
    }
}

/// Whether the request is refused: only a delete is accepted once a tenant is deleted.
pub open spec fn lifecycle_refused(action: LifecycleAction, rec: TenantRecordView) -> bool {
    rec.status == "deleted"@ && action != LifecycleAction::Delete
}

/// The record after an accepted request: the desired state it asks for, the status it moves
/// to (a pause or delete of a tenant with nothing running goes straight to the desired
/// state), and no active deployment after a delete.
pub open spec fn lifecycle_record(action: LifecycleAction, rec: TenantRecordView) -> TenantRecordView {
    let desired = desired_state_of(action);
    TenantRecordView {
        desired_state: desired,
        status: if (action == LifecycleAction::Pause || action == LifecycleAction::Delete)
            && rec.active_deployment_count == 0 {
            desired
        } else {
            next_status_of(action, rec)
        },
        active_deployment_count: if action == LifecycleAction::Delete {
            0
        } else {
            rec.active_deployment_count
        },
        ..rec
    }
}

/// The message of the answer to a refused request.
pub open spec fn refusal_message() -> Seq<char> {
    "deleted deployments cannot be resumed or paused"@
}

/// Applies a lifecycle request to a stored record: a 409 when it is refused (see
/// `lifecycle_refused`), the updated record otherwise (see `lifecycle_record`).
pub fn apply_lifecycle_action(action: LifecycleAction, rec: TenantRecord) -> (r: Result<
    TenantRecord,
    ApiError,
>)
    ensures
        r is Err <==> lifecycle_refused(action, rec@),
        r matches Ok(n) ==> n@ == lifecycle_record(action, rec@),
        r matches Err(e) ==> e.status == 409 && e.error@ == error_code_of(409) && e.error@ == "conflict"@ && (e.message matches Some(
            m) && m@ == refusal_message()),
{
    if str_eq(rec.status.as_str(), "deleted") && action != LifecycleAction::Delete {
        return Err(ApiError::new(409, "deleted deployments cannot be resumed or paused"));
    }
    let desired = action.desired_state();
    let next = action.next_status(&rec);
    let status = if (action == LifecycleAction::Pause || action == LifecycleAction::Delete)
        && rec.active_deployment_count == 0 {
        copy_str(desired)
    } else {
        next
    };
    let count: u8 = if action == LifecycleAction::Delete { 0 } else { rec.active_deployment_count };
    Ok(TenantRecord {
        desired_state: copy_str(desired),
        status: status,
        active_deployment_count: count,
        ..rec
    })
}

} // verus!
