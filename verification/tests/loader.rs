use ghastly::parser::workflow::{parse_workflow, PermissionLevel, Permissions};
use ghastly::{check_workflow, get_policies, GhastlyError};

const SAMPLE: &str = "\
name: CI
run-name: integration
permissions:
  contents: read
env:
  FOO: bar
jobs:
  build:
    runs-on: ubuntu-latest
    permissions: read-all
    steps:
      - run: echo hi
        env:
          A: b
      - uses: actions/checkout@v4
";

#[test]
fn parse_workflow_decodes_every_field() {
    let wf = parse_workflow(SAMPLE).expect("sample should decode");
    assert_eq!(wf.name.as_ref().unwrap().value, "CI");
    assert_eq!(wf.run_name.as_ref().unwrap().value, "integration");
    match &wf.permissions.as_ref().unwrap().value {
        Permissions::Event(e) => {
            assert_eq!(e.contents(), PermissionLevel::Read);
            assert_eq!(e.actions(), PermissionLevel::NoAccess);
        }
        other => panic!("expected fine-grained permissions, got {other:?}"),
    }
    let env = &wf.env.as_ref().unwrap().value;
    assert_eq!(env.len(), 1);
    assert_eq!(env[0].0, "FOO");
    assert_eq!(env[0].1.value, "bar");
    assert_eq!(wf.jobs.value.len(), 1);
    let (job_name, job) = &wf.jobs.value[0];
    assert_eq!(job_name, "build");
    assert_eq!(job.value.runs_on.value, "ubuntu-latest");
    assert!(matches!(
        job.value.permissions.as_ref().unwrap().value,
        Permissions::ReadAll
    ));
    let steps = &job.value.steps.as_ref().unwrap().value;
    assert_eq!(steps.len(), 2);
    let run = steps[0].run.as_ref().unwrap();
    assert_eq!(run.value, "echo hi");
    assert_eq!(run.span.start().unwrap().line, 12);
    let step_env = &steps[0].env.as_ref().unwrap().value;
    assert_eq!(step_env[0].0, "A");
    assert_eq!(step_env[0].1.value, "b");
    assert_eq!(steps[1].uses.as_ref().unwrap().value, "actions/checkout@v4");
}

#[test]
fn unrecognized_permission_scalar_fails_decoding() {
    let text = "permissions: maybe-all\njobs:\n  foo:\n    runs-on: x\n";
    match parse_workflow(text) {
        Err(GhastlyError::Decode(message)) => {
            assert_eq!(message, "unknown global permission 'maybe-all'");
        }
        other => panic!("expected a decode error, got {other:?}"),
    }
}

#[test]
fn unrecognized_permission_level_fails_decoding() {
    let text = "jobs:\n  foo:\n    runs-on: x\n    permissions:\n      contents: maybe\n";
    match parse_workflow(text) {
        Err(GhastlyError::Decode(message)) => {
            assert_eq!(message, "unknown permission level 'maybe'");
        }
        other => panic!("expected a decode error, got {other:?}"),
    }
}

#[test]
fn malformed_yaml_fails_decoding() {
    let text = "jobs: [unclosed\n";
    assert!(matches!(
        parse_workflow(text),
        Err(GhastlyError::Decode(_))
    ));
}

#[test]
fn missing_jobs_field_fails_decoding() {
    match parse_workflow("name: CI\n") {
        Err(GhastlyError::Decode(message)) => {
            assert_eq!(message, "workflow is missing the 'jobs' field");
        }
        other => panic!("expected a decode error, got {other:?}"),
    }
}

#[test]
fn missing_runs_on_fails_decoding() {
    match parse_workflow("jobs:\n  foo:\n    steps: []\n") {
        Err(GhastlyError::Decode(message)) => {
            assert_eq!(message, "job is missing the 'runs-on' field");
        }
        other => panic!("expected a decode error, got {other:?}"),
    }
}

#[test]
fn empty_document_is_missing_jobs() {
    match parse_workflow("") {
        Err(GhastlyError::Decode(message)) => {
            assert_eq!(message, "workflow is missing the 'jobs' field");
        }
        other => panic!("expected a decode error, got {other:?}"),
    }
}

#[test]
fn top_level_sequence_fails_decoding() {
    assert!(matches!(
        parse_workflow("- a\n- b\n"),
        Err(GhastlyError::Decode(_))
    ));
}

#[test]
fn permissions_sequence_fails_decoding() {
    let text = "permissions:\n  - read-all\njobs:\n  foo:\n    runs-on: x\n";
    match parse_workflow(text) {
        Err(GhastlyError::Decode(message)) => {
            assert_eq!(message, "expected permissions");
        }
        other => panic!("expected a decode error, got {other:?}"),
    }
}

#[test]
fn non_scalar_env_value_fails_decoding() {
    let text = "jobs:\n  foo:\n    runs-on: x\n    steps:\n      - run: ok\n        env:\n          A: [1, 2]\n";
    match parse_workflow(text) {
        Err(GhastlyError::Decode(message)) => {
            assert_eq!(message, "expected a string value");
        }
        other => panic!("expected a decode error, got {other:?}"),
    }
}

#[test]
fn non_sequence_steps_fails_decoding() {
    let text = "jobs:\n  foo:\n    runs-on: x\n    steps: nope\n";
    match parse_workflow(text) {
        Err(GhastlyError::Decode(message)) => {
            assert_eq!(message, "expected a sequence of steps");
        }
        other => panic!("expected a decode error, got {other:?}"),
    }
}

#[test]
fn unknown_fields_are_ignored() {
    let text = "on: [push]\nexotic: true\njobs:\n  foo:\n    runs-on: x\n    future-field: 3\n";
    let wf = parse_workflow(text).expect("unknown fields must not reject the document");
    assert_eq!(wf.jobs.value.len(), 1);
}

#[test]
fn check_workflow_reports_one_output_per_policy() {
    let outputs = check_workflow(SAMPLE).expect("sample should decode");
    let policies = get_policies();
    assert_eq!(outputs.len(), policies.len());
    for (output, policy) in outputs.iter().zip(policies.iter()) {
        assert_eq!(output.policy().name, policy.name);
    }
    // The sample's one job grants read-all and has no expression in run.
    assert_eq!(outputs[0].violations().len(), 1);
    assert_eq!(outputs[1].violations().len(), 0);
    assert_eq!(outputs[2].violations().len(), 0);
    assert_eq!(outputs[3].violations().len(), 0);
}

#[test]
fn check_workflow_keeps_clean_policies_in_the_output() {
    let text = "jobs:\n  a:\n    runs-on: x\n    permissions:\n      contents: read\n";
    let outputs = check_workflow(text).expect("should decode");
    assert_eq!(outputs.len(), 4);
    assert!(outputs.iter().all(|o| o.violations().is_empty()));
}

#[test]
fn check_workflow_propagates_decode_errors() {
    assert!(matches!(
        check_workflow("permissions: maybe-all\njobs: {}\n"),
        Err(GhastlyError::Decode(_))
    ));
}

#[test]
fn get_policies_lists_the_registry_in_order() {
    let policies = get_policies();
    let names: Vec<&str> = policies.iter().map(|p| p.name).collect();
    assert_eq!(
        names,
        vec![
            "no_all_permissions",
            "permissions_set",
            "no_github_expr_in_run",
            "foobar"
        ]
    );
    assert!(policies[0].doc.is_some());
    assert!(policies[3].doc.is_none());
}
