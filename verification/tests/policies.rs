use ghastly::parser::workflow::{
    Job, PermissionEvent, PermissionLevel, Permissions, Step, Workflow,
};
use ghastly::policies::permissions::{no_all_permissions, permissions_set};
use ghastly::policies::expressions::no_github_expr_in_run;
use ghastly::span::{Position, Span, Spanned};

fn spanned<T>(value: T) -> Spanned<T> {
    Spanned::new(Span::blank(), value)
}

fn marked_span(line: u32, column: u32) -> Span {
    Span::new(Some(Position::new(line, column)), None)
}

fn plain_job(permissions: Option<Spanned<Permissions>>, steps: Option<Vec<Step>>) -> Job {
    Job {
        permissions,
        runs_on: spanned("ubuntu-latest".to_string()),
        shell: None,
        steps: steps.map(spanned),
    }
}

fn workflow_of(
    permissions: Option<Spanned<Permissions>>,
    jobs: Vec<(String, Spanned<Job>)>,
) -> Workflow {
    Workflow {
        name: None,
        run_name: None,
        permissions,
        env: None,
        jobs: spanned(jobs),
    }
}

fn empty_step() -> Step {
    Step {
        id: None,
        condition: None,
        name: None,
        uses: None,
        run: None,
        working_directory: None,
        shell: None,
        with: None,
        env: None,
    }
}

#[test]
fn no_all_permissions_flags_read_all_job() {
    let span = marked_span(3, 18);
    let job = plain_job(
        Some(Spanned::new(span, Permissions::ReadAll)),
        None,
    );
    let wf = workflow_of(None, vec![("foo".to_string(), spanned(job))]);
    let violations = no_all_permissions(&wf);
    assert_eq!(violations.len(), 1);
    assert_eq!(
        violations[0].message().as_str(),
        "Job foo should not use the 'read-all' permission."
    );
    assert_eq!(violations[0].source(), &span);
}

#[test]
fn no_all_permissions_flags_write_all_job() {
    let job = plain_job(Some(spanned(Permissions::WriteAll)), None);
    let wf = workflow_of(None, vec![("deploy".to_string(), spanned(job))]);
    let violations = no_all_permissions(&wf);
    assert_eq!(violations.len(), 1);
    assert_eq!(
        violations[0].message().as_str(),
        "Job deploy should not use the 'write-all' permission."
    );
}

#[test]
fn no_all_permissions_accepts_fine_grained_job() {
    let event = PermissionEvent {
        contents: Some(PermissionLevel::Read),
        ..PermissionEvent::empty()
    };
    let job = plain_job(Some(spanned(Permissions::Event(event))), None);
    let wf = workflow_of(None, vec![("foo".to_string(), spanned(job))]);
    assert_eq!(no_all_permissions(&wf).len(), 0);
}

#[test]
fn permissions_set_accepts_single_job_with_workflow_default() {
    let event = PermissionEvent {
        contents: Some(PermissionLevel::Read),
        ..PermissionEvent::empty()
    };
    let wf = workflow_of(
        Some(spanned(Permissions::Event(event))),
        vec![("foo".to_string(), spanned(plain_job(None, None)))],
    );
    assert_eq!(permissions_set(&wf).len(), 0);
}

#[test]
fn permissions_set_flags_second_job_without_permissions() {
    let event = PermissionEvent {
        contents: Some(PermissionLevel::Read),
        ..PermissionEvent::empty()
    };
    let with_perms = plain_job(Some(spanned(Permissions::Event(event))), None);
    let job_span = marked_span(9, 3);
    let without_perms = plain_job(None, None);
    let wf = workflow_of(
        Some(spanned(Permissions::Event(event))),
        vec![
            ("covered".to_string(), spanned(with_perms)),
            ("bare".to_string(), Spanned::new(job_span, without_perms)),
        ],
    );
    let violations = permissions_set(&wf);
    assert_eq!(violations.len(), 1);
    assert_eq!(
        violations[0].message().as_str(),
        "Job 'bare' should set 'permissions' field."
    );
    assert_eq!(violations[0].source(), &job_span);
}

#[test]
fn permissions_set_skips_when_workflow_default_grants_nothing() {
    let wf = workflow_of(
        Some(spanned(Permissions::Event(PermissionEvent::empty()))),
        vec![
            ("a".to_string(), spanned(plain_job(None, None))),
            ("b".to_string(), spanned(plain_job(None, None))),
        ],
    );
    assert_eq!(permissions_set(&wf).len(), 0);
}

#[test]
fn permissions_set_flags_every_bare_job_without_defaults() {
    let wf = workflow_of(
        None,
        vec![
            ("a".to_string(), spanned(plain_job(None, None))),
            ("b".to_string(), spanned(plain_job(None, None))),
        ],
    );
    assert_eq!(permissions_set(&wf).len(), 2);
}

#[test]
fn no_github_expr_in_run_flags_expression_in_run() {
    let run_span = marked_span(6, 14);
    let step = Step {
        run: Some(Spanned::new(
            run_span,
            "echo \"${{ github.event.pull_request.title }}\"".to_string(),
        )),
        ..empty_step()
    };
    let job = plain_job(None, Some(vec![step]));
    let wf = workflow_of(None, vec![("foo".to_string(), spanned(job))]);
    let violations = no_github_expr_in_run(&wf);
    assert_eq!(violations.len(), 1);
    assert_eq!(
        violations[0].message().as_str(),
        "Step 1 of job foo should not directly include GitHub expression in the 'run' field."
    );
    assert_eq!(violations[0].source(), &run_span);
}

#[test]
fn no_github_expr_in_run_accepts_expression_via_env() {
    let step = Step {
        run: Some(spanned("echo \"$VAR\"".to_string())),
        env: Some(spanned(vec![(
            "VAR".to_string(),
            spanned("${{ github.event.pull_request.title }}".to_string()),
        )])),
        ..empty_step()
    };
    let job = plain_job(None, Some(vec![step]));
    let wf = workflow_of(None, vec![("foo".to_string(), spanned(job))]);
    assert_eq!(no_github_expr_in_run(&wf).len(), 0);
}

#[test]
fn no_github_expr_in_run_numbers_steps_from_one() {
    let quiet = Step {
        run: Some(spanned("echo ok".to_string())),
        ..empty_step()
    };
    let noisy = Step {
        run: Some(spanned("echo ${{ matrix.os }}".to_string())),
        ..empty_step()
    };
    let job = plain_job(None, Some(vec![quiet, noisy]));
    let wf = workflow_of(None, vec![("build".to_string(), spanned(job))]);
    let violations = no_github_expr_in_run(&wf);
    assert_eq!(violations.len(), 1);
    assert_eq!(
        violations[0].message().as_str(),
        "Step 2 of job build should not directly include GitHub expression in the 'run' field."
    );
}

#[test]
fn permission_event_getters_default_to_no_access() {
    let event = PermissionEvent {
        contents: Some(PermissionLevel::Read),
        statuses: Some(PermissionLevel::Write),
        ..PermissionEvent::empty()
    };
    assert_eq!(event.contents(), PermissionLevel::Read);
    assert_eq!(event.statuses(), PermissionLevel::Write);
    assert_eq!(event.actions(), PermissionLevel::NoAccess);
    assert_eq!(event.id_token(), PermissionLevel::NoAccess);
}

#[test]
fn permission_event_iter_lists_all_scopes_in_order() {
    let event = PermissionEvent {
        contents: Some(PermissionLevel::Read),
        ..PermissionEvent::empty()
    };
    let entries = event.iter();
    assert_eq!(entries.len(), 14);
    assert_eq!(entries[0], ("actions", PermissionLevel::NoAccess));
    assert_eq!(entries[3], ("contents", PermissionLevel::Read));
    assert_eq!(entries[13], ("statuses", PermissionLevel::NoAccess));
}

#[test]
fn permissions_from_scalar_accepts_only_the_two_grants() {
    assert_eq!(
        Permissions::from_scalar("read-all"),
        Ok(Permissions::ReadAll)
    );
    assert_eq!(
        Permissions::from_scalar("write-all"),
        Ok(Permissions::WriteAll)
    );
    assert_eq!(
        Permissions::from_scalar("maybe-all"),
        Err("unknown global permission 'maybe-all'".to_string())
    );
}

#[test]
fn span_without_start_has_no_end() {
    let s = Span::new(None, Some(Position::new(1, 1)));
    assert_eq!(s.start(), &None);
    assert_eq!(s.end(), &None);
    let t = Span::new(Some(Position::new(2, 3)), Some(Position::new(2, 9)));
    assert_eq!(t.start(), &Some(Position::new(2, 3)));
    assert_eq!(t.end(), &Some(Position::new(2, 9)));
}
