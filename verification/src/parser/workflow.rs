//! The typed workflow document: permissions, steps, jobs and the workflow
//! itself, each parsed field carrying its source span, together with the
//! decoder from the plain YAML tree.
use crate::parser::yaml::{
    entries_view, lemma_entries_view, lemma_nodes_view, node_view, nodes_view, parse_document,
    value_view, yaml_doc, YamlNode, YamlNodeModel, YamlValue, YamlValueModel,
};
use crate::span::{Span, Spanned, SpannedModel};
use crate::GhastlyError;
use vstd::prelude::*;

verus! {

/// The access level of one permission scope.
#[derive(Debug, Clone, Copy, PartialEq, Eq, Structural)]
pub enum PermissionLevel {
    /// Read access.
    Read,
    /// Write access (which includes read access).
    Write,
    /// No access; the level of every scope left unspecified.
    NoAccess,
}

impl Default for PermissionLevel {
    fn default() -> (r: Self)
        ensures
            r == PermissionLevel::NoAccess,
    {
        PermissionLevel::NoAccess
    }
}

/// The level of an optional scope field: unspecified means no access.
pub open spec fn level_or_default(o: Option<PermissionLevel>) -> PermissionLevel {
    match o {
        Some(l) => l,
        None => PermissionLevel::NoAccess,
    }
}

/// Fine-grained token permissions: one optional level per scope.
#[derive(Debug, Clone, Copy, PartialEq, Eq)]
pub struct PermissionEvent {
    pub actions: Option<PermissionLevel>,
    pub attestations: Option<PermissionLevel>,
    pub checks: Option<PermissionLevel>,
    pub contents: Option<PermissionLevel>,
    pub deployments: Option<PermissionLevel>,
    pub discussions: Option<PermissionLevel>,
    pub id_token: Option<PermissionLevel>,
    pub issues: Option<PermissionLevel>,
    pub packages: Option<PermissionLevel>,
    pub pages: Option<PermissionLevel>,
    pub pull_requests: Option<PermissionLevel>,
    pub repository_projects: Option<PermissionLevel>,
    pub security_events: Option<PermissionLevel>,
    pub statuses: Option<PermissionLevel>,
}

/// Every scope of the set, as a name/level pair, in a fixed order.
pub open spec fn event_entries(e: PermissionEvent) -> Seq<(Seq<char>, PermissionLevel)> {
    seq![
        ("actions"@, level_or_default(e.actions)),
        ("attestations"@, level_or_default(e.attestations)),
        ("checks"@, level_or_default(e.checks)),
        ("contents"@, level_or_default(e.contents)),
        ("deployments"@, level_or_default(e.deployments)),
        ("discussions"@, level_or_default(e.discussions)),
        ("id_token"@, level_or_default(e.id_token)),
        ("issues"@, level_or_default(e.issues)),
        ("packages"@, level_or_default(e.packages)),
        ("pages"@, level_or_default(e.pages)),
        ("pull_requests"@, level_or_default(e.pull_requests)),
        ("repository_projects"@, level_or_default(e.repository_projects)),
        ("security_events"@, level_or_default(e.security_events)),
        ("statuses"@, level_or_default(e.statuses)),
    ]
}

/// Every scope of the set grants no access.
pub open spec fn all_scopes_none(e: PermissionEvent) -> bool {
    forall|i: int|
        0 <= i < event_entries(e).len() ==> (#[trigger] event_entries(e)[i]).1
            == PermissionLevel::NoAccess
}

impl PermissionEvent {
    /// A set with every scope unspecified.
    pub fn empty() -> (r: PermissionEvent)
        ensures
            all_scopes_none(r),
    {
        PermissionEvent {
            actions: None,
            attestations: None,
            checks: None,
            contents: None,
            deployments: None,
            discussions: None,
            id_token: None,
            issues: None,
            packages: None,
            pages: None,
            pull_requests: None,
            repository_projects: None,
            security_events: None,
            statuses: None,
        }
    }

    /// Work with GitHub Actions.
    pub fn actions(&self) -> (r: PermissionLevel)
        ensures
            r == level_or_default(self.actions),
    {
        match self.actions {
            Some(l) => l,
            None => PermissionLevel::NoAccess,
        }
    }

    /// Work with artifact attestations.
    pub fn attestations(&self) -> (r: PermissionLevel)
        ensures
            r == level_or_default(self.attestations),
    {
        match self.attestations {
            Some(l) => l,
            None => PermissionLevel::NoAccess,
        }
    }

    /// Work with check runs and check suites.
    pub fn checks(&self) -> (r: PermissionLevel)
        ensures
            r == level_or_default(self.checks),
    {
        match self.checks {
            Some(l) => l,
            None => PermissionLevel::NoAccess,
        }
    }

    /// Work with repository contents.
    pub fn contents(&self) -> (r: PermissionLevel)
        ensures
            r == level_or_default(self.contents),
    {
        match self.contents {
            Some(l) => l,
            None => PermissionLevel::NoAccess,
        }
    }

    /// Work with deployments.
    pub fn deployments(&self) -> (r: PermissionLevel)
        ensures
            r == level_or_default(self.deployments),
    {
        match self.deployments {
            Some(l) => l,
            None => PermissionLevel::NoAccess,
        }
    }

    /// Work with GitHub Discussions.
    pub fn discussions(&self) -> (r: PermissionLevel)
        ensures
            r == level_or_default(self.discussions),
    {
        match self.discussions {
            Some(l) => l,
            None => PermissionLevel::NoAccess,
        }
    }

    /// Fetch an OpenID Connect (OIDC) token.
    pub fn id_token(&self) -> (r: PermissionLevel)
        ensures
            r == level_or_default(self.id_token),
    {
        match self.id_token {
            Some(l) => l,
            None => PermissionLevel::NoAccess,
        }
    }

    /// Work with issues.
    pub fn issues(&self) -> (r: PermissionLevel)
        ensures
            r == level_or_default(self.issues),
    {
        match self.issues {
            Some(l) => l,
            None => PermissionLevel::NoAccess,
        }
    }

    /// Work with GitHub Packages.
    pub fn packages(&self) -> (r: PermissionLevel)
        ensures
            r == level_or_default(self.packages),
    {
        match self.packages {
            Some(l) => l,
            None => PermissionLevel::NoAccess,
        }
    }

    /// Work with GitHub Pages.
    pub fn pages(&self) -> (r: PermissionLevel)
        ensures
            r == level_or_default(self.pages),
    {
        match self.pages {
            Some(l) => l,
            None => PermissionLevel::NoAccess,
        }
    }

    /// Work with pull requests.
    pub fn pull_requests(&self) -> (r: PermissionLevel)
        ensures
            r == level_or_default(self.pull_requests),
    {
        match self.pull_requests {
            Some(l) => l,
            None => PermissionLevel::NoAccess,
        }
    }

    /// Work with GitHub projects (classic).
    pub fn repository_projects(&self) -> (r: PermissionLevel)
        ensures
            r == level_or_default(self.repository_projects),
    {
        match self.repository_projects {
            Some(l) => l,
            None => PermissionLevel::NoAccess,
        }
    }

    /// Work with code scanning and Dependabot alerts.
    pub fn security_events(&self) -> (r: PermissionLevel)
        ensures
            r == level_or_default(self.security_events),
    {
        match self.security_events {
            Some(l) => l,
            None => PermissionLevel::NoAccess,
        }
    }

    /// Work with commit statuses.
    pub fn statuses(&self) -> (r: PermissionLevel)
        ensures
            r == level_or_default(self.statuses),
    {
        match self.statuses {
            Some(l) => l,
            None => PermissionLevel::NoAccess,
        }
    }

    /// Every scope with its effective level, in the order of `event_entries`.
    pub fn iter(&self) -> (r: Vec<(&'static str, PermissionLevel)>)
        ensures
            r@.len() == event_entries(*self).len(),
            forall|i: int|
                0 <= i < r@.len() ==> ((#[trigger] r@[i]).0@, r@[i].1) == event_entries(*self)[i],
    {
        let mut v: Vec<(&'static str, PermissionLevel)> = Vec::new();
        v.push(("actions", self.actions()));
        v.push(("attestations", self.attestations()));
        v.push(("checks", self.checks()));
        v.push(("contents", self.contents()));
        v.push(("deployments", self.deployments()));
        v.push(("discussions", self.discussions()));
        v.push(("id_token", self.id_token()));
        v.push(("issues", self.issues()));
        v.push(("packages", self.packages()));
        v.push(("pages", self.pages()));
        v.push(("pull_requests", self.pull_requests()));
        v.push(("repository_projects", self.repository_projects()));
        v.push(("security_events", self.security_events()));
        v.push(("statuses", self.statuses()));
        v
    }
}

/// Token permission settings: one of the two blanket grants, or a
/// fine-grained set of scope levels.
#[derive(Debug, Clone, Copy, PartialEq, Eq)]
pub enum Permissions {
    /// The `read-all` blanket grant.
    ReadAll,
    /// The `write-all` blanket grant.
    WriteAll,
    /// Fine-grained scope levels.
    Event(PermissionEvent),
}

/// The error text for a permission scalar that is neither `read-all` nor
/// `write-all`.
pub open spec fn unknown_permission_message(s: Seq<char>) -> Seq<char> {
    "unknown global permission '"@ + s + "'"@
}

/// What a bare permission scalar decodes to: exactly `read-all` or
/// `write-all`, anything else rejected.
pub open spec fn spec_permissions_from_scalar(s: Seq<char>) -> Result<Permissions, Seq<char>> {
    if s == "read-all"@ {
        Ok(Permissions::ReadAll)
    } else if s == "write-all"@ {
        Ok(Permissions::WriteAll)
    } else {
        Err(unknown_permission_message(s))
    }
}

impl Permissions {
    /// Decode a bare permission scalar.
    pub fn from_scalar(s: &str) -> (r: Result<Permissions, String>)
        ensures
            match r {
                Ok(p) => spec_permissions_from_scalar(s@) == Ok::<Permissions, Seq<char>>(p),
                Err(m) => spec_permissions_from_scalar(s@) == Err::<Permissions, Seq<char>>(m@),
            },
    {
        if str_eq(s, "read-all") {
            Ok(Permissions::ReadAll)
        } else if str_eq(s, "write-all") {
            Ok(Permissions::WriteAll)
        } else {
            let mut m = "unknown global permission '".to_string();
            m.append(s);
            m.append("'");
            Err(m)
        }
    }
}

/// Character-wise string equality, proved against the string views.
pub fn str_eq(a: &str, b: &str) -> (r: bool)
    ensures
        r == (a@ == b@),
{
    let al = a.unicode_len();
    let bl = b.unicode_len();
    if al != bl {
        return false;
    }
    let mut i: usize = 0;
    while i < al
        invariant
            al == a@.len(),
            al == b@.len(),
            i <= al,
            forall|k: int| 0 <= k < i ==> a@[k] == b@[k],
        decreases al - i,
    {
        if a.get_char(i) != b.get_char(i) {
            return false;
        }
        i = i + 1;
    }
    proof {
        assert(a@ =~= b@);
    }
    true
}

/// A key-to-string mapping such as `env` or `with`, in document order.
pub type StringMap = Vec<(String, Spanned<String>)>;

/// The model of a `StringMap`.
pub type StringMapModel = Seq<(Seq<char>, SpannedModel<Seq<char>>)>;

/// The model of a `StringMap` value.
pub open spec fn string_map_view(m: StringMap) -> StringMapModel {
    Seq::new(m@.len(), |i: int| (m@[i].0@, m@[i].1@))
}

/// A single task of a job.
#[derive(Debug, Clone, PartialEq, Eq)]
pub struct Step {
    /// A unique identifier for the step.
    pub id: Option<Spanned<String>>,
    /// A condition that must hold for the step to run.
    pub condition: Option<Spanned<String>>,
    /// A display name for the step.
    pub name: Option<Spanned<String>>,
    /// An external action to run.
    pub uses: Option<Spanned<String>>,
    /// Inline command text run by the shell.
    pub run: Option<Spanned<String>>,
    /// The working directory for the command.
    pub working_directory: Option<Spanned<String>>,
    /// A shell override for this step.
    pub shell: Option<Spanned<String>>,
    /// Input parameters handed to the action.
    pub with: Option<Spanned<StringMap>>,
    /// Environment variables for this step.
    pub env: Option<Spanned<StringMap>>,
}

/// The model of a `Step`.
pub struct StepModel {
    pub id: Option<SpannedModel<Seq<char>>>,
    pub condition: Option<SpannedModel<Seq<char>>>,
    pub name: Option<SpannedModel<Seq<char>>>,
    pub uses: Option<SpannedModel<Seq<char>>>,
    pub run: Option<SpannedModel<Seq<char>>>,
    pub working_directory: Option<SpannedModel<Seq<char>>>,
    pub shell: Option<SpannedModel<Seq<char>>>,
    pub with: Option<SpannedModel<StringMapModel>>,
    pub env: Option<SpannedModel<StringMapModel>>,
}

/// The model of an optional spanned string field.
pub open spec fn opt_string_view(o: Option<Spanned<String>>) -> Option<SpannedModel<Seq<char>>> {
    match o {
        Some(s) => Some(s@),
        None => None,
    }
}

/// The model of an optional spanned string-map field.
pub open spec fn opt_map_view(o: Option<Spanned<StringMap>>) -> Option<
    SpannedModel<StringMapModel>,
> {
    match o {
        Some(s) => Some(SpannedModel { span: s.span, value: string_map_view(s.value) }),
        None => None,
    }
}

impl View for Step {
    type V = StepModel;

    open spec fn view(&self) -> StepModel {
        StepModel {
            id: opt_string_view(self.id),
            condition: opt_string_view(self.condition),
            name: opt_string_view(self.name),
            uses: opt_string_view(self.uses),
            run: opt_string_view(self.run),
            working_directory: opt_string_view(self.working_directory),
            shell: opt_string_view(self.shell),
            with: opt_map_view(self.with),
            env: opt_map_view(self.env),
        }
    }
}

/// A named unit of work within a workflow.
#[derive(Debug, Clone, PartialEq, Eq)]
pub struct Job {
    /// Token permissions for the job.
    pub permissions: Option<Spanned<Permissions>>,
    /// The type of machine to run the job on.
    pub runs_on: Spanned<String>,
    /// A default shell for the job's steps.
    pub shell: Option<Spanned<String>>,
    /// The tasks run by this job, in order.
    pub steps: Option<Spanned<Vec<Step>>>,
}

/// The model of a `Job`.
pub struct JobModel {
    pub permissions: Option<SpannedModel<Permissions>>,
    pub runs_on: SpannedModel<Seq<char>>,
    pub shell: Option<SpannedModel<Seq<char>>>,
    pub steps: Option<SpannedModel<Seq<StepModel>>>,
}

/// The model of an optional spanned permissions field.
pub open spec fn opt_permissions_view(o: Option<Spanned<Permissions>>) -> Option<
    SpannedModel<Permissions>,
> {
    match o {
        Some(p) => Some(SpannedModel { span: p.span, value: p.value }),
        None => None,
    }
}

/// The model of a sequence of steps.
pub open spec fn steps_view(v: Vec<Step>) -> Seq<StepModel> {
    Seq::new(v@.len(), |i: int| v@[i]@)
}

impl View for Job {
    type V = JobModel;

    open spec fn view(&self) -> JobModel {
        JobModel {
            permissions: opt_permissions_view(self.permissions),
            runs_on: self.runs_on@,
            shell: opt_string_view(self.shell),
            steps: match self.steps {
                Some(s) => Some(SpannedModel { span: s.span, value: steps_view(s.value) }),
                None => None,
            },
        }
    }
}

/// The named jobs of a workflow, in document order.
pub type JobMap = Vec<(String, Spanned<Job>)>;

/// The model of a `JobMap`.
pub type JobMapModel = Seq<(Seq<char>, SpannedModel<JobModel>)>;

/// The model of a `JobMap` value.
pub open spec fn job_map_view(m: JobMap) -> JobMapModel {
    Seq::new(m@.len(), |i: int| (m@[i].0@, m@[i].1@))
}

/// A whole workflow document.
#[derive(Debug, Clone, PartialEq, Eq)]
pub struct Workflow {
    /// The name of the workflow.
    pub name: Option<Spanned<String>>,
    /// The name given to runs of the workflow.
    pub run_name: Option<Spanned<String>>,
    /// Default token permissions for every job.
    pub permissions: Option<Spanned<Permissions>>,
    /// Environment variables shared by every job.
    pub env: Option<Spanned<StringMap>>,
    /// The workflow's jobs, by name.
    pub jobs: Spanned<JobMap>,
}

/// The model of a `Workflow`.
pub struct WorkflowModel {
    pub name: Option<SpannedModel<Seq<char>>>,
    pub run_name: Option<SpannedModel<Seq<char>>>,
    pub permissions: Option<SpannedModel<Permissions>>,
    pub env: Option<SpannedModel<StringMapModel>>,
    pub jobs: SpannedModel<JobMapModel>,
}

impl View for Workflow {
    type V = WorkflowModel;

    open spec fn view(&self) -> WorkflowModel {
        WorkflowModel {
            name: opt_string_view(self.name),
            run_name: opt_string_view(self.run_name),
            permissions: opt_permissions_view(self.permissions),
            env: opt_map_view(self.env),
            jobs: SpannedModel { span: self.jobs.span, value: job_map_view(self.jobs.value) },
        }
    }
}

/// The first entry of a mapping with the given key, if any.
pub open spec fn find_entry(es: Seq<(Seq<char>, YamlNodeModel)>, key: Seq<char>) -> Option<
    YamlNodeModel,
>
    decreases es.len(),
{
    if es.len() == 0 {
        None
    } else if es[0].0 == key {
        Some(es[0].1)
    } else {
        find_entry(es.drop_first(), key)
    }
}

/// What decoding a string field from a node yields: the scalar text with the
/// node's span, or a rejection of any other node shape.
pub open spec fn spec_decode_string(n: YamlNodeModel) -> Result<SpannedModel<Seq<char>>, Seq<char>> {
    match n.value {
        YamlValueModel::Scalar(s) => Ok(SpannedModel { span: n.span, value: s }),
        _ => Err("expected a string value"@),
    }
}

pub open spec fn spec_decode_string_entries(es: Seq<(Seq<char>, YamlNodeModel)>) -> Result<
    StringMapModel,
    Seq<char>,
>
    decreases es.len(),
{
    if es.len() == 0 {
        Ok(Seq::empty())
    } else {
        match spec_decode_string(es[0].1) {
            Err(m) => Err(m),
            Ok(v) => match spec_decode_string_entries(es.drop_first()) {
                Err(m) => Err(m),
                Ok(rest) => Ok(seq![(es[0].0, v)] + rest),
            },
        }
    }
}

/// What decoding a string-to-string mapping from a node yields.
pub open spec fn spec_decode_string_map(n: YamlNodeModel) -> Result<
    SpannedModel<StringMapModel>,
    Seq<char>,
> {
    match n.value {
        YamlValueModel::Mapping(es) => match spec_decode_string_entries(es) {
            Ok(m) => Ok(SpannedModel { span: n.span, value: m }),
            Err(e) => Err(e),
        },
        _ => Err("expected a mapping of strings"@),
    }
}

/// The error text for a scope level that is not `read`, `write` or `none`.
pub open spec fn unknown_level_message(s: Seq<char>) -> Seq<char> {
    "unknown permission level '"@ + s + "'"@
}

/// What a scope level scalar decodes to.
pub open spec fn spec_decode_level(s: Seq<char>) -> Result<PermissionLevel, Seq<char>> {
    if s == "read"@ {
        Ok(PermissionLevel::Read)
    } else if s == "write"@ {
        Ok(PermissionLevel::Write)
    } else if s == "none"@ {
        Ok(PermissionLevel::NoAccess)
    } else {
        Err(unknown_level_message(s))
    }
}

/// What one named scope of a fine-grained permission mapping decodes to:
/// absent stays absent, a level scalar is decoded, anything else is rejected.
pub open spec fn spec_decode_scope(es: Seq<(Seq<char>, YamlNodeModel)>, key: Seq<char>) -> Result<
    Option<PermissionLevel>,
    Seq<char>,
> {
    match find_entry(es, key) {
        None => Ok(None),
        Some(n) => match n.value {
            YamlValueModel::Scalar(s) => match spec_decode_level(s) {
                Ok(l) => Ok(Some(l)),
                Err(m) => Err(m),
            },
            _ => Err("expected a permission level"@),
        },
    }
}

/// What a fine-grained permission mapping decodes to: each known scope read
/// in a fixed order, unknown keys ignored.
pub open spec fn spec_decode_event(es: Seq<(Seq<char>, YamlNodeModel)>) -> Result<
    PermissionEvent,
    Seq<char>,
> {
    match spec_decode_scope(es, "actions"@) {
        Err(m) => Err(m),
        Ok(actions) => match spec_decode_scope(es, "attestations"@) {
            Err(m) => Err(m),
            Ok(attestations) => match spec_decode_scope(es, "checks"@) {
                Err(m) => Err(m),
                Ok(checks) => match spec_decode_scope(es, "contents"@) {
                    Err(m) => Err(m),
                    Ok(contents) => match spec_decode_scope(es, "deployments"@) {
                        Err(m) => Err(m),
                        Ok(deployments) => match spec_decode_scope(es, "discussions"@) {
                            Err(m) => Err(m),
                            Ok(discussions) => match spec_decode_scope(es, "id-token"@) {
                                Err(m) => Err(m),
                                Ok(id_token) => match spec_decode_scope(es, "issues"@) {
                                    Err(m) => Err(m),
                                    Ok(issues) => match spec_decode_scope(es, "packages"@) {
                                        Err(m) => Err(m),
                                        Ok(packages) => match spec_decode_scope(es, "pages"@) {
                                            Err(m) => Err(m),
                                            Ok(pages) => match spec_decode_scope(
                                                es,
                                                "pull-requests"@,
                                            ) {
                                                Err(m) => Err(m),
                                                Ok(pull_requests) => match spec_decode_scope(
                                                    es,
                                                    "repository-projects"@,
                                                ) {
                                                    Err(m) => Err(m),
                                                    Ok(repository_projects) => match spec_decode_scope(
                                                        es,
                                                        "security-events"@,
                                                    ) {
                                                        Err(m) => Err(m),
                                                        Ok(security_events) => match spec_decode_scope(
                                                            es,
                                                            "statuses"@,
                                                        ) {
                                                            Err(m) => Err(m),
                                                            Ok(statuses) => Ok(
                                                                PermissionEvent {
                                                                    actions,
                                                                    attestations,
                                                                    checks,
                                                                    contents,
                                                                    deployments,
                                                                    discussions,
                                                                    id_token,
                                                                    issues,
                                                                    packages,
                                                                    pages,
                                                                    pull_requests,
                                                                    repository_projects,
                                                                    security_events,
                                                                    statuses,
                                                                },
                                                            ),
                                                        },
                                                    },
                                                },
                                            },
                                        },
                                    },
                                },
                            },
                        },
                    },
                },
            },
        },
    }
}

/// What a permission field decodes to: a bare `read-all`/`write-all` scalar,
/// or a fine-grained scope mapping; a sequence is rejected.
pub open spec fn spec_decode_permissions(n: YamlNodeModel) -> Result<
    SpannedModel<Permissions>,
    Seq<char>,
> {
    match n.value {
        YamlValueModel::Scalar(s) => match spec_permissions_from_scalar(s) {
            Ok(p) => Ok(SpannedModel { span: n.span, value: p }),
            Err(m) => Err(m),
        },
        YamlValueModel::Mapping(es) => match spec_decode_event(es) {
            Ok(e) => Ok(SpannedModel { span: n.span, value: Permissions::Event(e) }),
            Err(m) => Err(m),
        },
        YamlValueModel::Sequence(_) => Err("expected permissions"@),
    }
}

/// What an optional string field of a mapping decodes to.
pub open spec fn spec_decode_opt_string(es: Seq<(Seq<char>, YamlNodeModel)>, key: Seq<char>) -> Result<
    Option<SpannedModel<Seq<char>>>,
    Seq<char>,
> {
    match find_entry(es, key) {
        None => Ok(None),
        Some(v) => match spec_decode_string(v) {
            Ok(s) => Ok(Some(s)),
            Err(m) => Err(m),
        },
    }
}

/// What an optional string-map field of a mapping decodes to.
pub open spec fn spec_decode_opt_map(es: Seq<(Seq<char>, YamlNodeModel)>, key: Seq<char>) -> Result<
    Option<SpannedModel<StringMapModel>>,
    Seq<char>,
> {
    match find_entry(es, key) {
        None => Ok(None),
        Some(v) => match spec_decode_string_map(v) {
            Ok(s) => Ok(Some(s)),
            Err(m) => Err(m),
        },
    }
}

/// What an optional permissions field of a mapping decodes to.
pub open spec fn spec_decode_permissions_field(es: Seq<(Seq<char>, YamlNodeModel)>) -> Result<
    Option<SpannedModel<Permissions>>,
    Seq<char>,
> {
    match find_entry(es, "permissions"@) {
        None => Ok(None),
        Some(v) => match spec_decode_permissions(v) {
            Ok(p) => Ok(Some(p)),
            Err(m) => Err(m),
        },
    }
}

/// What one step node decodes to: a mapping whose known fields are read,
/// unknown keys ignored.
pub open spec fn spec_decode_step(n: YamlNodeModel) -> Result<StepModel, Seq<char>> {
    match n.value {
        YamlValueModel::Mapping(es) => match spec_decode_opt_string(es, "id"@) {
            Err(m) => Err(m),
            Ok(id) => match spec_decode_opt_string(es, "if"@) {
                Err(m) => Err(m),
                Ok(condition) => match spec_decode_opt_string(es, "name"@) {
                    Err(m) => Err(m),
                    Ok(name) => match spec_decode_opt_string(es, "uses"@) {
                        Err(m) => Err(m),
                        Ok(uses) => match spec_decode_opt_string(es, "run"@) {
                            Err(m) => Err(m),
                            Ok(run) => match spec_decode_opt_string(es, "working-directory"@) {
                                Err(m) => Err(m),
                                Ok(working_directory) => match spec_decode_opt_string(
                                    es,
                                    "shell"@,
                                ) {
                                    Err(m) => Err(m),
                                    Ok(shell) => match spec_decode_opt_map(es, "with"@) {
                                        Err(m) => Err(m),
                                        Ok(with) => match spec_decode_opt_map(es, "env"@) {
                                            Err(m) => Err(m),
                                            Ok(env) => Ok(
                                                StepModel {
                                                    id,
                                                    condition,
                                                    name,
                                                    uses,
                                                    run,
                                                    working_directory,
                                                    shell,
                                                    with,
                                                    env,
                                                },
                                            ),
                                        },
                                    },
                                },
                            },
                        },
                    },
                },
            },
        },
        _ => Err("expected a step mapping"@),
    }
}

/// What a sequence of step nodes decodes to.
pub open spec fn spec_decode_steps(ns: Seq<YamlNodeModel>) -> Result<Seq<StepModel>, Seq<char>>
    decreases ns.len(),
{
    if ns.len() == 0 {
        Ok(Seq::empty())
    } else {
        match spec_decode_step(ns[0]) {
            Err(m) => Err(m),
            Ok(s) => match spec_decode_steps(ns.drop_first()) {
                Err(m) => Err(m),
                Ok(rest) => Ok(seq![s] + rest),
            },
        }
    }
}

/// What the optional `steps` field of a job decodes to: absent, or a
/// sequence of step mappings.
pub open spec fn spec_decode_steps_field(es: Seq<(Seq<char>, YamlNodeModel)>) -> Result<
    Option<SpannedModel<Seq<StepModel>>>,
    Seq<char>,
> {
    match find_entry(es, "steps"@) {
        None => Ok(None),
        Some(v) => match v.value {
            YamlValueModel::Sequence(ns) => match spec_decode_steps(ns) {
                Ok(ss) => Ok(Some(SpannedModel { span: v.span, value: ss })),
                Err(m) => Err(m),
            },
            _ => Err("expected a sequence of steps"@),
        },
    }
}

/// What one job node decodes to: a mapping with a required `runs-on` string,
/// unknown keys ignored.
pub open spec fn spec_decode_job(n: YamlNodeModel) -> Result<JobModel, Seq<char>> {
    match n.value {
        YamlValueModel::Mapping(es) => match spec_decode_permissions_field(es) {
            Err(m) => Err(m),
            Ok(permissions) => match find_entry(es, "runs-on"@) {
                None => Err("job is missing the 'runs-on' field"@),
                Some(v) => match spec_decode_string(v) {
                    Err(m) => Err(m),
                    Ok(runs_on) => match spec_decode_opt_string(es, "shell"@) {
                        Err(m) => Err(m),
                        Ok(shell) => match spec_decode_steps_field(es) {
                            Err(m) => Err(m),
                            Ok(steps) => Ok(JobModel { permissions, runs_on, shell, steps }),
                        },
                    },
                },
            },
        },
        _ => Err("expected a job mapping"@),
    }
}

/// What the entries of the `jobs` mapping decode to, in document order.
pub open spec fn spec_decode_job_entries(es: Seq<(Seq<char>, YamlNodeModel)>) -> Result<
    JobMapModel,
    Seq<char>,
>
    decreases es.len(),
{
    if es.len() == 0 {
        Ok(Seq::empty())
    } else {
        match spec_decode_job(es[0].1) {
            Err(m) => Err(m),
            Ok(j) => match spec_decode_job_entries(es.drop_first()) {
                Err(m) => Err(m),
                Ok(rest) => Ok(
                    seq![(es[0].0, SpannedModel { span: es[0].1.span, value: j })] + rest,
                ),
            },
        }
    }
}

/// What the `jobs` node decodes to: a mapping from job names to jobs.
pub open spec fn spec_decode_jobs(n: YamlNodeModel) -> Result<SpannedModel<JobMapModel>, Seq<char>> {
    match n.value {
        YamlValueModel::Mapping(es) => match spec_decode_job_entries(es) {
            Ok(jm) => Ok(SpannedModel { span: n.span, value: jm }),
            Err(m) => Err(m),
        },
        _ => Err("expected a mapping of jobs"@),
    }
}

/// What a whole workflow document decodes to: a mapping with a required
/// `jobs` field, unknown keys ignored.
pub open spec fn spec_decode_workflow(n: YamlNodeModel) -> Result<WorkflowModel, Seq<char>> {
    match n.value {
        YamlValueModel::Mapping(es) => match spec_decode_opt_string(es, "name"@) {
            Err(m) => Err(m),
            Ok(name) => match spec_decode_opt_string(es, "run-name"@) {
                Err(m) => Err(m),
                Ok(run_name) => match spec_decode_permissions_field(es) {
                    Err(m) => Err(m),
                    Ok(permissions) => match spec_decode_opt_map(es, "env"@) {
                        Err(m) => Err(m),
                        Ok(env) => match find_entry(es, "jobs"@) {
                            None => Err("workflow is missing the 'jobs' field"@),
                            Some(v) => match spec_decode_jobs(v) {
                                Err(m) => Err(m),
                                Ok(jobs) => Ok(
                                    WorkflowModel { name, run_name, permissions, env, jobs },
                                ),
                            },
                        },
                    },
                },
            },
        },
        _ => Err("expected a workflow mapping"@),
    }
}

/// Find the first entry of a mapping with the given key.
fn find_entry_node<'a>(es: &'a Vec<(String, YamlNode)>, key: &str) -> (r: Option<&'a YamlNode>)
    ensures
        match r {
            Some(n) => find_entry(entries_view(es@), key@) == Some(n@),
            None => find_entry(entries_view(es@), key@) is None,
        },
{
    proof {
        lemma_entries_view(es@);
    }
    let ghost evs = entries_view(es@);
    proof {
        assert(evs.skip(0) =~= evs);
    }
    let mut i: usize = 0;
    while i < es.len()
        invariant
            i <= es@.len(),
            evs == entries_view(es@),
            evs.len() == es@.len(),
            forall|k: int| 0 <= k < es@.len() ==> evs[k] == (es@[k].0@, node_view(es@[k].1)),
            find_entry(evs, key@) == find_entry(evs.skip(i as int), key@),
        decreases es@.len() - i,
    {
        let e = &es[i];
        proof {
            assert(evs.skip(i as int)[0] == evs[i as int]);
            assert(evs.skip(i as int).drop_first() =~= evs.skip(i as int + 1));
        }
        if str_eq(e.0.as_str(), key) {
            return Some(&e.1);
        }
        i = i + 1;
    }
    proof {
        assert(evs.skip(es@.len() as int).len() == 0);
    }
    None
}

/// Decode a string field from a node.
fn decode_string(n: &YamlNode) -> (r: Result<Spanned<String>, String>)
    ensures
        match r {
            Ok(v) => spec_decode_string(n@) == Ok::<SpannedModel<Seq<char>>, Seq<char>>(v@),
            Err(m) => spec_decode_string(n@) == Err::<SpannedModel<Seq<char>>, Seq<char>>(m@),
        },
{
    match &n.value {
        YamlValue::Scalar(s) => Ok(Spanned { span: n.span, value: s.clone() }),
        _ => Err("expected a string value".to_string()),
    }
}

/// Decode a string-to-string mapping from a node.
fn decode_string_map(n: &YamlNode) -> (r: Result<Spanned<StringMap>, String>)
    ensures
        match r {
            Ok(v) => spec_decode_string_map(n@) == Ok::<SpannedModel<StringMapModel>, Seq<char>>(
                SpannedModel { span: v.span, value: string_map_view(v.value) },
            ),
            Err(m) => spec_decode_string_map(n@) == Err::<SpannedModel<StringMapModel>, Seq<char>>(
                m@,
            ),
        },
{
    match &n.value {
        YamlValue::Mapping(es) => {
            proof {
                lemma_entries_view(es@);
                assert(n@ == YamlNodeModel { span: n.span, value: value_view(n.value) });
                assert(value_view(n.value) == YamlValueModel::Mapping(entries_view(es@)));
            }
            let ghost evs = entries_view(es@);
            let mut out: StringMap = Vec::new();
            proof {
                assert(evs.skip(0) =~= evs);
                match spec_decode_string_entries(evs) {
                    Ok(rest) => {
                        assert(string_map_view(out) + rest =~= rest);
                    },
                    Err(_) => {},
                }
            }
            let mut i: usize = 0;
            while i < es.len()
                invariant
                    i <= es@.len(),
                    evs == entries_view(es@),
                    evs.len() == es@.len(),
                    n@ == (YamlNodeModel { span: n.span, value: YamlValueModel::Mapping(evs) }),
                    forall|k: int|
                        0 <= k < es@.len() ==> evs[k] == (es@[k].0@, node_view(es@[k].1)),
                    spec_decode_string_entries(evs) == match spec_decode_string_entries(
                        evs.skip(i as int),
                    ) {
                        Ok(rest) => Ok::<StringMapModel, Seq<char>>(string_map_view(out) + rest),
                        Err(m) => Err::<StringMapModel, Seq<char>>(m),
                    },
                decreases es@.len() - i,
            {
                let e = &es[i];
                proof {
                    assert(evs.skip(i as int)[0] == evs[i as int]);
                    assert(evs.skip(i as int).drop_first() =~= evs.skip(i as int + 1));
                }
                let ghost prev = string_map_view(out);
                match decode_string(&e.1) {
                    Ok(v) => {
                        out.push((e.0.clone(), v));
                        proof {
                            assert(string_map_view(out) =~= prev + seq![
                                (es@[i as int].0@, v@),
                            ]);
                            assert forall|rest: StringMapModel|
                                true implies prev + (seq![(es@[i as int].0@, v@)] + rest)
                                == string_map_view(out) + rest by {
                                assert(prev + (seq![(es@[i as int].0@, v@)] + rest)
                                    =~= string_map_view(out) + rest);
                            }
                        }
                    },
                    Err(m) => {
                        return Err(m);
                    },
                }
                i = i + 1;
            }
            proof {
                assert(evs.skip(es@.len() as int).len() == 0);
                assert(string_map_view(out) + Seq::<(Seq<char>, SpannedModel<Seq<char>>)>::empty()
                    =~= string_map_view(out));
            }
            Ok(Spanned { span: n.span, value: out })
        },
        _ => Err("expected a mapping of strings".to_string()),
    }
}

/// Decode a scope level scalar.
fn decode_level(s: &str) -> (r: Result<PermissionLevel, String>)
    ensures
        match r {
            Ok(l) => spec_decode_level(s@) == Ok::<PermissionLevel, Seq<char>>(l),
            Err(m) => spec_decode_level(s@) == Err::<PermissionLevel, Seq<char>>(m@),
        },
{
    if str_eq(s, "read") {
        Ok(PermissionLevel::Read)
    } else if str_eq(s, "write") {
        Ok(PermissionLevel::Write)
    } else if str_eq(s, "none") {
        Ok(PermissionLevel::NoAccess)
    } else {
        let mut m = "unknown permission level '".to_string();
        m.append(s);
        m.append("'");
        Err(m)
    }
}

/// Decode one named scope of a fine-grained permission mapping.
fn decode_scope(es: &Vec<(String, YamlNode)>, key: &str) -> (r: Result<
    Option<PermissionLevel>,
    String,
>)
    ensures
        match r {
            Ok(l) => spec_decode_scope(entries_view(es@), key@) == Ok::<
                Option<PermissionLevel>,
                Seq<char>,
            >(l),
            Err(m) => spec_decode_scope(entries_view(es@), key@) == Err::<
                Option<PermissionLevel>,
                Seq<char>,
            >(m@),
        },
{
    match find_entry_node(es, key) {
        None => Ok(None),
        Some(n) => match &n.value {
            YamlValue::Scalar(s) => match decode_level(s.as_str()) {
                Ok(l) => Ok(Some(l)),
                Err(m) => Err(m),
            },
            _ => Err("expected a permission level".to_string()),
        },
    }
}

/// Decode a fine-grained permission mapping.
fn decode_event(es: &Vec<(String, YamlNode)>) -> (r: Result<PermissionEvent, String>)
    ensures
        match r {
            Ok(e) => spec_decode_event(entries_view(es@)) == Ok::<PermissionEvent, Seq<char>>(e),
            Err(m) => spec_decode_event(entries_view(es@)) == Err::<PermissionEvent, Seq<char>>(
                m@,
            ),
        },
{
    let actions = match decode_scope(es, "actions") {
        Ok(v) => v,
        Err(m) => {
            return Err(m);
        },
    };
    let attestations = match decode_scope(es, "attestations") {
        Ok(v) => v,
        Err(m) => {
            return Err(m);
        },
    };
    let checks = match decode_scope(es, "checks") {
        Ok(v) => v,
        Err(m) => {
            return Err(m);
        },
    };
    let contents = match decode_scope(es, "contents") {
        Ok(v) => v,
        Err(m) => {
            return Err(m);
        },
    };
    let deployments = match decode_scope(es, "deployments") {
        Ok(v) => v,
        Err(m) => {
            return Err(m);
        },
    };
    let discussions = match decode_scope(es, "discussions") {
        Ok(v) => v,
        Err(m) => {
            return Err(m);
        },
    };
    let id_token = match decode_scope(es, "id-token") {
        Ok(v) => v,
        Err(m) => {
            return Err(m);
        },
    };
    let issues = match decode_scope(es, "issues") {
        Ok(v) => v,
        Err(m) => {
            return Err(m);
        },
    };
    let packages = match decode_scope(es, "packages") {
        Ok(v) => v,
        Err(m) => {
            return Err(m);
        },
    };
    let pages = match decode_scope(es, "pages") {
        Ok(v) => v,
        Err(m) => {
            return Err(m);
        },
    };
    let pull_requests = match decode_scope(es, "pull-requests") {
        Ok(v) => v,
        Err(m) => {
            return Err(m);
        },
    };
    let repository_projects = match decode_scope(es, "repository-projects") {
        Ok(v) => v,
        Err(m) => {
            return Err(m);
        },
    };
    let security_events = match decode_scope(es, "security-events") {
        Ok(v) => v,
        Err(m) => {
            return Err(m);
        },
    };
    let statuses = match decode_scope(es, "statuses") {
        Ok(v) => v,
        Err(m) => {
            return Err(m);
        },
    };
    Ok(
        PermissionEvent {
            actions,
            attestations,
            checks,
            contents,
            deployments,
            discussions,
            id_token,
            issues,
            packages,
            pages,
            pull_requests,
            repository_projects,
            security_events,
            statuses,
        },
    )
}

/// Decode a permission field: a bare scalar or a fine-grained mapping.
fn decode_permissions(n: &YamlNode) -> (r: Result<Spanned<Permissions>, String>)
    ensures
        match r {
            Ok(v) => spec_decode_permissions(n@) == Ok::<SpannedModel<Permissions>, Seq<char>>(
                SpannedModel { span: v.span, value: v.value },
            ),
            Err(m) => spec_decode_permissions(n@) == Err::<SpannedModel<Permissions>, Seq<char>>(
                m@,
            ),
        },
{
    match &n.value {
        YamlValue::Scalar(s) => match Permissions::from_scalar(s.as_str()) {
            Ok(p) => Ok(Spanned { span: n.span, value: p }),
            Err(m) => Err(m),
        },
        YamlValue::Mapping(es) => match decode_event(es) {
            Ok(e) => Ok(Spanned { span: n.span, value: Permissions::Event(e) }),
            Err(m) => Err(m),
        },
        YamlValue::Sequence(_) => Err("expected permissions".to_string()),
    }
}

/// Decode an optional string field of a mapping.
fn decode_opt_string(es: &Vec<(String, YamlNode)>, key: &str) -> (r: Result<
    Option<Spanned<String>>,
    String,
>)
    ensures
        match r {
            Ok(v) => spec_decode_opt_string(entries_view(es@), key@) == Ok::<
                Option<SpannedModel<Seq<char>>>,
                Seq<char>,
            >(opt_string_view(v)),
            Err(m) => spec_decode_opt_string(entries_view(es@), key@) == Err::<
                Option<SpannedModel<Seq<char>>>,
                Seq<char>,
            >(m@),
        },
{
    match find_entry_node(es, key) {
        None => Ok(None),
        Some(n) => match decode_string(n) {
            Ok(s) => Ok(Some(s)),
            Err(m) => Err(m),
        },
    }
}

/// Decode an optional string-map field of a mapping.
fn decode_opt_map(es: &Vec<(String, YamlNode)>, key: &str) -> (r: Result<
    Option<Spanned<StringMap>>,
    String,
>)
    ensures
        match r {
            Ok(v) => spec_decode_opt_map(entries_view(es@), key@) == Ok::<
                Option<SpannedModel<StringMapModel>>,
                Seq<char>,
            >(opt_map_view(v)),
            Err(m) => spec_decode_opt_map(entries_view(es@), key@) == Err::<
                Option<SpannedModel<StringMapModel>>,
                Seq<char>,
            >(m@),
        },
{
    match find_entry_node(es, key) {
        None => Ok(None),
        Some(n) => match decode_string_map(n) {
            Ok(s) => Ok(Some(s)),
            Err(m) => Err(m),
        },
    }
}

/// Decode the optional permissions field of a mapping.
fn decode_permissions_field(es: &Vec<(String, YamlNode)>) -> (r: Result<
    Option<Spanned<Permissions>>,
    String,
>)
    ensures
        match r {
            Ok(v) => spec_decode_permissions_field(entries_view(es@)) == Ok::<
                Option<SpannedModel<Permissions>>,
                Seq<char>,
            >(opt_permissions_view(v)),
            Err(m) => spec_decode_permissions_field(entries_view(es@)) == Err::<
                Option<SpannedModel<Permissions>>,
                Seq<char>,
            >(m@),
        },
{
    match find_entry_node(es, "permissions") {
        None => Ok(None),
        Some(n) => match decode_permissions(n) {
            Ok(p) => Ok(Some(p)),
            Err(m) => Err(m),
        },
    }
}

/// Decode one step node.
fn decode_step(n: &YamlNode) -> (r: Result<Step, String>)
    ensures
        match r {
            Ok(s) => spec_decode_step(n@) == Ok::<StepModel, Seq<char>>(s@),
            Err(m) => spec_decode_step(n@) == Err::<StepModel, Seq<char>>(m@),
        },
{
    proof {
        assert(n@ == (YamlNodeModel { span: n.span, value: value_view(n.value) }));
    }
    match &n.value {
        YamlValue::Mapping(es) => {
            let id = match decode_opt_string(es, "id") {
                Ok(v) => v,
                Err(m) => {
                    return Err(m);
                },
            };
            let condition = match decode_opt_string(es, "if") {
                Ok(v) => v,
                Err(m) => {
                    return Err(m);
                },
            };
            let name = match decode_opt_string(es, "name") {
                Ok(v) => v,
                Err(m) => {
                    return Err(m);
                },
            };
            let uses = match decode_opt_string(es, "uses") {
                Ok(v) => v,
                Err(m) => {
                    return Err(m);
                },
            };
            let run = match decode_opt_string(es, "run") {
                Ok(v) => v,
                Err(m) => {
                    return Err(m);
                },
            };
            let working_directory = match decode_opt_string(es, "working-directory") {
                Ok(v) => v,
                Err(m) => {
                    return Err(m);
                },
            };
            let shell = match decode_opt_string(es, "shell") {
                Ok(v) => v,
                Err(m) => {
                    return Err(m);
                },
            };
            let with = match decode_opt_map(es, "with") {
                Ok(v) => v,
                Err(m) => {
                    return Err(m);
                },
            };
            let env = match decode_opt_map(es, "env") {
                Ok(v) => v,
                Err(m) => {
                    return Err(m);
                },
            };
            Ok(Step { id, condition, name, uses, run, working_directory, shell, with, env })
        },
        _ => Err("expected a step mapping".to_string()),
    }
}

/// Decode the optional `steps` field of a job mapping.
fn decode_steps_field(es: &Vec<(String, YamlNode)>) -> (r: Result<
    Option<Spanned<Vec<Step>>>,
    String,
>)
    ensures
        match r {
            Ok(v) => spec_decode_steps_field(entries_view(es@)) == Ok::<
                Option<SpannedModel<Seq<StepModel>>>,
                Seq<char>,
            >(
                match v {
                    Some(s) => Some(SpannedModel { span: s.span, value: steps_view(s.value) }),
                    None => None,
                },
            ),
            Err(m) => spec_decode_steps_field(entries_view(es@)) == Err::<
                Option<SpannedModel<Seq<StepModel>>>,
                Seq<char>,
            >(m@),
        },
{
    let node = match find_entry_node(es, "steps") {
        None => {
            return Ok(None);
        },
        Some(n) => n,
    };
    proof {
        assert(node@ == (YamlNodeModel { span: node.span, value: value_view(node.value) }));
    }
    match &node.value {
        YamlValue::Sequence(items) => {
            proof {
                lemma_nodes_view(items@);
            }
            let ghost nvs = nodes_view(items@);
            let mut out: Vec<Step> = Vec::new();
            proof {
                assert(nvs.skip(0) =~= nvs);
                match spec_decode_steps(nvs) {
                    Ok(rest) => {
                        assert(steps_view(out) + rest =~= rest);
                    },
                    Err(_) => {},
                }
            }
            let mut i: usize = 0;
            while i < items.len()
                invariant
                    i <= items@.len(),
                    nvs == nodes_view(items@),
                    nvs.len() == items@.len(),
                    find_entry(entries_view(es@), "steps"@) == Some(node@),
                    node@ == (YamlNodeModel {
                        span: node.span,
                        value: YamlValueModel::Sequence(nvs),
                    }),
                    forall|k: int| 0 <= k < items@.len() ==> nvs[k] == node_view(items@[k]),
                    spec_decode_steps(nvs) == match spec_decode_steps(nvs.skip(i as int)) {
                        Ok(rest) => Ok::<Seq<StepModel>, Seq<char>>(steps_view(out) + rest),
                        Err(m) => Err::<Seq<StepModel>, Seq<char>>(m),
                    },
                decreases items@.len() - i,
            {
                proof {
                    assert(nvs.skip(i as int)[0] == nvs[i as int]);
                    assert(nvs.skip(i as int).drop_first() =~= nvs.skip(i as int + 1));
                }
                let ghost prev = steps_view(out);
                match decode_step(&items[i]) {
                    Ok(s) => {
                        out.push(s);
                        proof {
                            assert(steps_view(out) =~= prev + seq![out@[out@.len() - 1]@]);
                            assert forall|rest: Seq<StepModel>|
                                true implies prev + (seq![out@[out@.len() - 1]@] + rest)
                                == steps_view(out) + rest by {
                                assert(prev + (seq![out@[out@.len() - 1]@] + rest) =~= steps_view(
                                    out,
                                ) + rest);
                            }
                        }
                    },
                    Err(m) => {
                        return Err(m);
                    },
                }
                i = i + 1;
            }
            proof {
                assert(nvs.skip(items@.len() as int).len() == 0);
                assert(steps_view(out) + Seq::<StepModel>::empty() =~= steps_view(out));
            }
            Ok(Some(Spanned { span: node.span, value: out }))
        },
        _ => Err("expected a sequence of steps".to_string()),
    }
}

/// Decode one job node.
fn decode_job(n: &YamlNode) -> (r: Result<Job, String>)
    ensures
        match r {
            Ok(j) => spec_decode_job(n@) == Ok::<JobModel, Seq<char>>(j@),
            Err(m) => spec_decode_job(n@) == Err::<JobModel, Seq<char>>(m@),
        },
{
    proof {
        assert(n@ == (YamlNodeModel { span: n.span, value: value_view(n.value) }));
    }
    match &n.value {
        YamlValue::Mapping(es) => {
            let permissions = match decode_permissions_field(es) {
                Ok(v) => v,
                Err(m) => {
                    return Err(m);
                },
            };
            let runs_on = match find_entry_node(es, "runs-on") {
                None => {
                    return Err("job is missing the 'runs-on' field".to_string());
                },
                Some(v) => match decode_string(v) {
                    Ok(s) => s,
                    Err(m) => {
                        return Err(m);
                    },
                },
            };
            let shell = match decode_opt_string(es, "shell") {
                Ok(v) => v,
                Err(m) => {
                    return Err(m);
                },
            };
            let steps = match decode_steps_field(es) {
                Ok(v) => v,
                Err(m) => {
                    return Err(m);
                },
            };
            Ok(Job { permissions, runs_on, shell, steps })
        },
        _ => Err("expected a job mapping".to_string()),
    }
}

/// Decode the `jobs` node.
fn decode_jobs(n: &YamlNode) -> (r: Result<Spanned<JobMap>, String>)
    ensures
        match r {
            Ok(v) => spec_decode_jobs(n@) == Ok::<SpannedModel<JobMapModel>, Seq<char>>(
                SpannedModel { span: v.span, value: job_map_view(v.value) },
            ),
            Err(m) => spec_decode_jobs(n@) == Err::<SpannedModel<JobMapModel>, Seq<char>>(m@),
        },
{
    match &n.value {
        YamlValue::Mapping(es) => {
            proof {
                lemma_entries_view(es@);
                assert(n@ == (YamlNodeModel { span: n.span, value: value_view(n.value) }));
            }
            let ghost evs = entries_view(es@);
            let mut out: JobMap = Vec::new();
            proof {
                assert(evs.skip(0) =~= evs);
                match spec_decode_job_entries(evs) {
                    Ok(rest) => {
                        assert(job_map_view(out) + rest =~= rest);
                    },
                    Err(_) => {},
                }
            }
            let mut i: usize = 0;
            while i < es.len()
                invariant
                    i <= es@.len(),
                    evs == entries_view(es@),
                    evs.len() == es@.len(),
                    n@ == (YamlNodeModel { span: n.span, value: YamlValueModel::Mapping(evs) }),
                    forall|k: int|
                        0 <= k < es@.len() ==> evs[k] == (es@[k].0@, node_view(es@[k].1)),
                    spec_decode_job_entries(evs) == match spec_decode_job_entries(
                        evs.skip(i as int),
                    ) {
                        Ok(rest) => Ok::<JobMapModel, Seq<char>>(job_map_view(out) + rest),
                        Err(m) => Err::<JobMapModel, Seq<char>>(m),
                    },
                decreases es@.len() - i,
            {
                let e = &es[i];
                proof {
                    assert(evs.skip(i as int)[0] == evs[i as int]);
                    assert(evs.skip(i as int).drop_first() =~= evs.skip(i as int + 1));
                    assert(node_view(e.1).span == e.1.span);
                }
                let ghost prev = job_map_view(out);
                match decode_job(&e.1) {
                    Ok(j) => {
                        out.push((e.0.clone(), Spanned { span: e.1.span, value: j }));
                        proof {
                            assert(job_map_view(out) =~= prev + seq![
                                (es@[i as int].0@, out@[out@.len() - 1].1@),
                            ]);
                            assert forall|rest: JobMapModel|
                                true implies prev + (seq![
                                (es@[i as int].0@, out@[out@.len() - 1].1@),
                            ] + rest) == job_map_view(out) + rest by {
                                assert(prev + (seq![(es@[i as int].0@, out@[out@.len() - 1].1@)]
                                    + rest) =~= job_map_view(out) + rest);
                            }
                        }
                    },
                    Err(m) => {
                        return Err(m);
                    },
                }
                i = i + 1;
            }
            proof {
                assert(evs.skip(es@.len() as int).len() == 0);
                assert(job_map_view(out) + Seq::<(Seq<char>, SpannedModel<JobModel>)>::empty()
                    =~= job_map_view(out));
            }
            Ok(Spanned { span: n.span, value: out })
        },
        _ => Err("expected a mapping of jobs".to_string()),
    }
}

/// Decode a whole workflow document node.
fn decode_workflow_node(n: &YamlNode) -> (r: Result<Workflow, String>)
    ensures
        match r {
            Ok(w) => spec_decode_workflow(n@) == Ok::<WorkflowModel, Seq<char>>(w@),
            Err(m) => spec_decode_workflow(n@) == Err::<WorkflowModel, Seq<char>>(m@),
        },
{
    proof {
        assert(n@ == (YamlNodeModel { span: n.span, value: value_view(n.value) }));
    }
    match &n.value {
        YamlValue::Mapping(es) => {
            let name = match decode_opt_string(es, "name") {
                Ok(v) => v,
                Err(m) => {
                    return Err(m);
                },
            };
            let run_name = match decode_opt_string(es, "run-name") {
                Ok(v) => v,
                Err(m) => {
                    return Err(m);
                },
            };
            let permissions = match decode_permissions_field(es) {
                Ok(v) => v,
                Err(m) => {
                    return Err(m);
                },
            };
            let env = match decode_opt_map(es, "env") {
                Ok(v) => v,
                Err(m) => {
                    return Err(m);
                },
            };
            let jobs = match find_entry_node(es, "jobs") {
                None => {
                    return Err("workflow is missing the 'jobs' field".to_string());
                },
                Some(v) => match decode_jobs(v) {
                    Ok(j) => j,
                    Err(m) => {
                        return Err(m);
                    },
                },
            };
            Ok(Workflow { name, run_name, permissions, env, jobs })
        },
        _ => Err("expected a workflow mapping".to_string()),
    }
}

/// Parse workflow YAML text into the typed workflow document: the text is
/// parsed into the plain tree and that tree decoded, any failure of either
/// step surfacing as a decode error.
pub fn parse_workflow(text: &str) -> (r: Result<Workflow, GhastlyError>)
    ensures
        match r {
            Ok(w) => match yaml_doc(text@) {
                Some(m) => spec_decode_workflow(m) == Ok::<WorkflowModel, Seq<char>>(w@),
                None => false,
            },
            Err(e) => match yaml_doc(text@) {
                None => e is Decode,
                Some(m) => match e {
                    GhastlyError::Decode(s) => spec_decode_workflow(m) == Err::<
                        WorkflowModel,
                        Seq<char>,
                    >(s@),
                    GhastlyError::Io(_) => false,
                },
            },
        },
{
    let node = match parse_document(text) {
        Ok(n) => n,
        Err(e) => {
            return Err(e);
        },
    };
    match decode_workflow_node(&node) {
        Ok(w) => Ok(w),
        Err(m) => Err(GhastlyError::Decode(m)),
    }
}

} // verus!
