//! Policies: named, independent checks over a parsed workflow, the registry
//! that lists them, and the violations they report.
use crate::parser::workflow::{Workflow, WorkflowModel};
use crate::span::Span;
use vstd::prelude::*;

pub mod expressions;
pub mod permissions;

verus! {

/// A located, human-readable finding produced by a policy.
#[derive(Debug, Clone, PartialEq, Eq)]
pub struct PolicyViolation {
    pub source: Span,
    pub message: String,
}

/// The mathematical image of a violation.
pub struct ViolationModel {
    pub source: Span,
    pub message: Seq<char>,
}

impl View for PolicyViolation {
    type V = ViolationModel;

    open spec fn view(&self) -> ViolationModel {
        ViolationModel { source: self.source, message: self.message@ }
    }
}

/// The models of a sequence of violations.
pub open spec fn violation_models(vs: Seq<PolicyViolation>) -> Seq<ViolationModel> {
    Seq::new(vs.len(), |i: int| vs[i]@)
}

impl PolicyViolation {
    pub fn new(source: Span, message: String) -> (r: PolicyViolation)
        ensures
            r.source == source && r.message == message,
    {
        PolicyViolation { source, message }
    }

    pub fn source(&self) -> (r: &Span)
        ensures
            *r == self.source,
    {
        &self.source
    }

    pub fn message(&self) -> (r: &String)
        ensures
            r == self.message,
    {
        &self.message
    }
}

/// The check a policy runs. Each variant names one of the library's checks;
/// `Policy::check` dispatches on it, so registering a policy is adding a
/// variant and its arm rather than touching the orchestrator.
#[derive(Debug, Clone, Copy, PartialEq, Eq, Structural)]
pub enum PolicyCheckFn {
    /// `no_all_permissions`.
    NoAllPermissions,
    /// `permissions_set`.
    PermissionsSet,
    /// `no_github_expr_in_run`.
    NoGithubExprInRun,
    /// `foobar`.
    Foobar,
}

/// What the named check reports on a workflow.
pub open spec fn spec_policy_check(f: PolicyCheckFn, w: WorkflowModel) -> Seq<ViolationModel> {
    match f {
        PolicyCheckFn::NoAllPermissions => permissions::spec_no_all_permissions(w.jobs.value),
        PolicyCheckFn::PermissionsSet => permissions::spec_permissions_set(w),
        PolicyCheckFn::NoGithubExprInRun => expressions::spec_no_github_expr_in_run(w.jobs.value),
        PolicyCheckFn::Foobar => Seq::empty(),
    }
}

/// A named, independent check over a parsed workflow, with optional
/// documentation text.
#[derive(Debug, Clone, Copy, PartialEq, Eq)]
pub struct Policy {
    pub name: &'static str,
    pub doc: Option<&'static str>,
    pub check_fn: PolicyCheckFn,
}

impl Policy {
    pub fn new(name: &'static str, check_fn: PolicyCheckFn) -> (r: Policy)
        ensures
            r.name == name && r.check_fn == check_fn && r.doc is None,
    {
        Policy { name, doc: None, check_fn }
    }

    /// The same policy with documentation text attached.
    pub fn with_doc(self, doc: &'static str) -> (r: Policy)
        ensures
            r.name == self.name && r.check_fn == self.check_fn && r.doc == Some(doc),
    {
        Policy { name: self.name, doc: Some(doc), check_fn: self.check_fn }
    }

    /// Run this policy's check on a workflow and wrap the findings.
    pub fn check(&self, workflow: &Workflow) -> (r: PolicyCheckOutput)
        ensures
            r.policy == *self,
            violation_models(r.violations@) == spec_policy_check(self.check_fn, workflow@),
    {
        let violations = match self.check_fn {
            PolicyCheckFn::NoAllPermissions => permissions::no_all_permissions(workflow),
            PolicyCheckFn::PermissionsSet => permissions::permissions_set(workflow),
            PolicyCheckFn::NoGithubExprInRun => expressions::no_github_expr_in_run(workflow),
            PolicyCheckFn::Foobar => {
                let v = crate::checks::permissions::foobar(workflow);
                proof {
                    assert(violation_models(v@) =~= Seq::<ViolationModel>::empty());
                }
                v
            },
        };
        PolicyCheckOutput { policy: *self, violations }
    }
}

/// One policy's findings from one run: the policy beside its violations, an
/// empty list meaning the policy found nothing wrong.
#[derive(Debug, Clone, PartialEq, Eq)]
pub struct PolicyCheckOutput {
    pub policy: Policy,
    pub violations: Vec<PolicyViolation>,
}

impl PolicyCheckOutput {
    pub fn new(policy: Policy, violations: Vec<PolicyViolation>) -> (r: PolicyCheckOutput)
        ensures
            r.policy == policy && r.violations == violations,
    {
        PolicyCheckOutput { policy, violations }
    }

    pub fn policy(&self) -> (r: &Policy)
        ensures
            *r == self.policy,
    {
        &self.policy
    }

    pub fn violations(&self) -> (r: &Vec<PolicyViolation>)
        ensures
            r == self.violations,
    {
        &self.violations
    }

    pub fn into_violations(self) -> (r: Vec<PolicyViolation>)
        ensures
            r == self.violations,
    {
        self.violations
    }
}

/// The checks of the registry, in registration order.
pub open spec fn default_policy_checks() -> Seq<PolicyCheckFn> {
    seq![
        PolicyCheckFn::NoAllPermissions,
        PolicyCheckFn::PermissionsSet,
        PolicyCheckFn::NoGithubExprInRun,
        PolicyCheckFn::Foobar,
    ]
}

/// The registry: every known policy, registered once here in a fixed order,
/// so a new policy is added by one more registration line.
pub fn get_policies() -> (r: Vec<Policy>)
    ensures
        r@.len() == default_policy_checks().len(),
        forall|i: int| 0 <= i < r@.len() ==> (#[trigger] r@[i]).check_fn == default_policy_checks()[i],
        r@[0].name@ == "no_all_permissions"@,
        r@[1].name@ == "permissions_set"@,
        r@[2].name@ == "no_github_expr_in_run"@,
        r@[3].name@ == "foobar"@,
{
    let mut v: Vec<Policy> = Vec::new();
    v.push(
        Policy::new("no_all_permissions", PolicyCheckFn::NoAllPermissions).with_doc(
            "Check that no jobs use the `read-all` or `write-all` blanket token permissions: permissions that are unnecessarily broad violate the principle of least privilege.",
        ),
    );
    v.push(
        Policy::new("permissions_set", PolicyCheckFn::PermissionsSet).with_doc(
            "Check that every job sets individual token permissions. A job may omit its `permissions` field only when the workflow default grants nothing, or when the workflow sets permissions and has a single job.",
        ),
    );
    v.push(
        Policy::new("no_github_expr_in_run", PolicyCheckFn::NoGithubExprInRun).with_doc(
            "Check that no step interpolates a GitHub expression directly inside its `run` field: the expression result is substituted as-is, which invites script injection. Pass the expression through an environment variable instead.",
        ),
    );
    v.push(Policy::new("foobar", PolicyCheckFn::Foobar));
    v
}

/// Run every given policy against a workflow, in order; every policy appears
/// in the output exactly once, a clean one with an empty violation list.
/// Every check is a verified total function, so one check aborting the whole
/// run is not a concern and no fault containment is placed around the calls.
pub fn run_policies(policies: &Vec<Policy>, workflow: &Workflow) -> (r: Vec<PolicyCheckOutput>)
    ensures
        r@.len() == policies@.len(),
        forall|i: int|
            0 <= i < r@.len() ==> (#[trigger] r@[i]).policy == policies@[i]
                && violation_models(r@[i].violations@) == spec_policy_check(
                policies@[i].check_fn,
                workflow@,
            ),
{
    let mut out: Vec<PolicyCheckOutput> = Vec::new();
    let mut i: usize = 0;
    while i < policies.len()
        invariant
            i <= policies@.len(),
            out@.len() == i,
            forall|k: int|
                0 <= k < i ==> (#[trigger] out@[k]).policy == policies@[k] && violation_models(
                    out@[k].violations@,
                ) == spec_policy_check(policies@[k].check_fn, workflow@),
        decreases policies@.len() - i,
    {
        out.push(policies[i].check(workflow));
        i = i + 1;
    }
    out
}

} // verus!
