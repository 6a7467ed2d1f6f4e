//! Policies about token permissions: no blanket grants, and a permission set
//! on every job that needs one.
use crate::parser::workflow::{
    all_scopes_none, job_map_view, JobMapModel, JobModel, PermissionEvent, PermissionLevel,
    Permissions, Workflow, WorkflowModel,
};
use crate::policies::{violation_models, PolicyViolation, ViolationModel};
use crate::span::SpannedModel;
use vstd::prelude::*;

verus! {

/// The finding text for a job using `read-all`.
pub open spec fn read_all_message(job: Seq<char>) -> Seq<char> {
    "Job "@ + job + " should not use the 'read-all' permission."@
}

/// The finding text for a job using `write-all`.
pub open spec fn write_all_message(job: Seq<char>) -> Seq<char> {
    "Job "@ + job + " should not use the 'write-all' permission."@
}

/// The violations one job contributes to `no_all_permissions`: one, located
/// at the permission field, when the job grants `read-all` or `write-all`.
pub open spec fn job_all_violations(e: (Seq<char>, SpannedModel<JobModel>)) -> Seq<ViolationModel> {
    match e.1.value.permissions {
        Some(p) => match p.value {
            Permissions::ReadAll => seq![
                ViolationModel { source: p.span, message: read_all_message(e.0) },
            ],
            Permissions::WriteAll => seq![
                ViolationModel { source: p.span, message: write_all_message(e.0) },
            ],
            Permissions::Event(_) => Seq::empty(),
        },
        None => Seq::empty(),
    }
}

/// What `no_all_permissions` reports: each job's contribution, in job order.
pub open spec fn spec_no_all_permissions(jobs: JobMapModel) -> Seq<ViolationModel>
    decreases jobs.len(),
{
    if jobs.len() == 0 {
        Seq::empty()
    } else {
        spec_no_all_permissions(jobs.drop_last()) + job_all_violations(jobs.last())
    }
}

/// Report every job whose own token permissions are the blanket `read-all`
/// or `write-all` grant.
pub fn no_all_permissions(workflow: &Workflow) -> (r: Vec<PolicyViolation>)
    ensures
        violation_models(r@) == spec_no_all_permissions(workflow@.jobs.value),
{
    let jobs = &workflow.jobs.value;
    let ghost jm = workflow@.jobs.value;
    let mut out: Vec<PolicyViolation> = Vec::new();
    proof {
        assert(violation_models(out@) =~= spec_no_all_permissions(jm.take(0)));
    }
    let mut i: usize = 0;
    while i < jobs.len()
        invariant
            i <= jobs@.len(),
            jm == job_map_view(workflow.jobs.value),
            jm.len() == jobs@.len(),
            forall|k: int| 0 <= k < jobs@.len() ==> jm[k] == (jobs@[k].0@, jobs@[k].1@),
            violation_models(out@) == spec_no_all_permissions(jm.take(i as int)),
        decreases jobs@.len() - i,
    {
        let e = &jobs[i];
        let ghost prev = out@;
        proof {
            assert(jm.take(i as int + 1).drop_last() =~= jm.take(i as int));
            assert(jm.take(i as int + 1).last() == jm[i as int]);
        }
        match &e.1.value.permissions {
            Some(p) => match p.value {
                Permissions::ReadAll => {
                    let mut m = "Job ".to_string();
                    m.append(e.0.as_str());
                    m.append(" should not use the 'read-all' permission.");
                    out.push(PolicyViolation { source: p.span, message: m });
                },
                Permissions::WriteAll => {
                    let mut m = "Job ".to_string();
                    m.append(e.0.as_str());
                    m.append(" should not use the 'write-all' permission.");
                    out.push(PolicyViolation { source: p.span, message: m });
                },
                Permissions::Event(_) => {},
            },
            None => {},
        }
        proof {
            assert(violation_models(out@) =~= violation_models(prev) + job_all_violations(
                jm[i as int],
            ));
        }
        i = i + 1;
    }
    proof {
        assert(jm.take(jobs@.len() as int) =~= jm);
    }
    out
}

/// The finding text for a job without its own permission set.
pub open spec fn missing_permissions_message(job: Seq<char>) -> Seq<char> {
    "Job '"@ + job + "' should set 'permissions' field."@
}

/// The violations one job contributes to `permissions_set`: one, located at
/// the job itself, when the job has no permission field of its own.
pub open spec fn job_missing_violations(e: (Seq<char>, SpannedModel<JobModel>)) -> Seq<
    ViolationModel,
> {
    match e.1.value.permissions {
        None => seq![
            ViolationModel { source: e.1.span, message: missing_permissions_message(e.0) },
        ],
        Some(_) => Seq::empty(),
    }
}

/// Each job's contribution to `permissions_set`, in job order.
pub open spec fn spec_missing_permissions(jobs: JobMapModel) -> Seq<ViolationModel>
    decreases jobs.len(),
{
    if jobs.len() == 0 {
        Seq::empty()
    } else {
        spec_missing_permissions(jobs.drop_last()) + job_missing_violations(jobs.last())
    }
}

/// The workflow's default permissions are fine-grained and grant nothing.
pub open spec fn workflow_defaults_none(w: WorkflowModel) -> bool {
    match w.permissions {
        Some(p) => match p.value {
            Permissions::Event(e) => all_scopes_none(e),
            _ => false,
        },
        None => false,
    }
}

/// What `permissions_set` reports: nothing when the workflow default grants
/// nothing, nothing when the workflow sets permissions and has at most one
/// job, otherwise every job lacking its own permission field.
pub open spec fn spec_permissions_set(w: WorkflowModel) -> Seq<ViolationModel> {
    if workflow_defaults_none(w) {
        Seq::empty()
    } else if w.permissions is Some && w.jobs.value.len() <= 1 {
        Seq::empty()
    } else {
        spec_missing_permissions(w.jobs.value)
    }
}

/// Every scope of the set grants no access, decided scope by scope.
fn event_all_none(e: &PermissionEvent) -> (r: bool)
    ensures
        r == all_scopes_none(*e),
{
    let entries = e.iter();
    let mut i: usize = 0;
    while i < entries.len()
        invariant
            i <= entries@.len(),
            entries@.len() == crate::parser::workflow::event_entries(*e).len(),
            forall|k: int|
                0 <= k < entries@.len() ==> ((#[trigger] entries@[k]).0@, entries@[k].1)
                    == crate::parser::workflow::event_entries(*e)[k],
            forall|k: int|
                0 <= k < i ==> (#[trigger] crate::parser::workflow::event_entries(*e)[k]).1
                    == PermissionLevel::NoAccess,
        decreases entries@.len() - i,
    {
        let level = entries[i].1;
        match level {
            PermissionLevel::NoAccess => {},
            _ => {
                proof {
                    assert(crate::parser::workflow::event_entries(*e)[i as int].1 == level);
                }
                return false;
            },
        }
        i = i + 1;
    }
    true
}

/// Report every job that should set its own token permissions: all of them,
/// unless the workflow default grants nothing, or the workflow sets a default
/// and has at most one job.
pub fn permissions_set(workflow: &Workflow) -> (r: Vec<PolicyViolation>)
    ensures
        violation_models(r@) == spec_permissions_set(workflow@),
{
    match &workflow.permissions {
        Some(p) => match &p.value {
            Permissions::Event(e) => {
                if event_all_none(e) {
                    proof {
                        assert(violation_models(Seq::<PolicyViolation>::empty())
                            =~= Seq::<ViolationModel>::empty());
                    }
                    return Vec::new();
                }
            },
            _ => {},
        },
        None => {},
    }
    if workflow.permissions.is_some() && workflow.jobs.value.len() <= 1 {
        proof {
            assert(violation_models(Seq::<PolicyViolation>::empty())
                =~= Seq::<ViolationModel>::empty());
        }
        return Vec::new();
    }
    let jobs = &workflow.jobs.value;
    let ghost jm = workflow@.jobs.value;
    let mut out: Vec<PolicyViolation> = Vec::new();
    proof {
        assert(violation_models(out@) =~= spec_missing_permissions(jm.take(0)));
    }
    let mut i: usize = 0;
    while i < jobs.len()
        invariant
            i <= jobs@.len(),
            jm == job_map_view(workflow.jobs.value),
            jm.len() == jobs@.len(),
            forall|k: int| 0 <= k < jobs@.len() ==> jm[k] == (jobs@[k].0@, jobs@[k].1@),
            violation_models(out@) == spec_missing_permissions(jm.take(i as int)),
        decreases jobs@.len() - i,
    {
        let e = &jobs[i];
        let ghost prev = out@;
        proof {
            assert(jm.take(i as int + 1).drop_last() =~= jm.take(i as int));
            assert(jm.take(i as int + 1).last() == jm[i as int]);
        }
        match &e.1.value.permissions {
            None => {
                let mut m = "Job '".to_string();
                m.append(e.0.as_str());
                m.append("' should set 'permissions' field.");
                out.push(PolicyViolation { source: e.1.span, message: m });
            },
            Some(_) => {},
        }
        proof {
            assert(violation_models(out@) =~= violation_models(prev) + job_missing_violations(
                jm[i as int],
            ));
        }
        i = i + 1;
    }
    proof {
        assert(jm.take(jobs@.len() as int) =~= jm);
    }
    out
}

} // verus!
