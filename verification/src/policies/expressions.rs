//! The policy against interpolating GitHub expressions directly inside a
//! step's `run` field: the expression result is substituted into the script
//! as-is, which invites script injection.
use crate::parser::expression::{spec_tokenize, token_models, tokenize, TokenKind};
use crate::parser::workflow::{job_map_view, steps_view, JobMapModel, JobModel, Step, StepModel, Workflow};
use crate::policies::{violation_models, PolicyViolation, ViolationModel};
use crate::span::SpannedModel;
use vstd::prelude::*;

verus! {

/// The decimal digit character for `d`.
pub open spec fn dec_digit(d: int) -> char {
    if d == 0 {
        '0'
    } else if d == 1 {
        '1'
    } else if d == 2 {
        '2'
    } else if d == 3 {
        '3'
    } else if d == 4 {
        '4'
    } else if d == 5 {
        '5'
    } else if d == 6 {
        '6'
    } else if d == 7 {
        '7'
    } else if d == 8 {
        '8'
    } else {
        '9'
    }
}

/// The decimal digits of `n`, most significant first.
pub open spec fn dec_str(n: nat) -> Seq<char>
    decreases n,
    via dec_str_decreases
{
    if n < 10 {
        seq![dec_digit(n as int)]
    } else {
        dec_str(n / 10) + seq![dec_digit((n % 10) as int)]
    }
}

#[via_fn]
proof fn dec_str_decreases(n: nat) {
    if n >= 10 {
        assert(n / 10 < n) by (nonlinear_arith)
            requires
                n >= 10,
        ;
    }
}

/// Append the decimal digits of `x`.
fn push_decimal(x: usize, out: &mut String)
    ensures
        final(out)@ == old(out)@ + dec_str(x as nat),
    decreases x,
{
    let ghost entry = out@;
    if x >= 10 {
        push_decimal(x / 10, out);
    }
    let d = x % 10;
    match d {
        0 => {
            out.append("0");
            proof {
                reveal_strlit("0");
                assert("0"@ =~= seq![dec_digit(0)]);
            }
        },
        1 => {
            out.append("1");
            proof {
                reveal_strlit("1");
                assert("1"@ =~= seq![dec_digit(1)]);
            }
        },
        2 => {
            out.append("2");
            proof {
                reveal_strlit("2");
                assert("2"@ =~= seq![dec_digit(2)]);
            }
        },
        3 => {
            out.append("3");
            proof {
                reveal_strlit("3");
                assert("3"@ =~= seq![dec_digit(3)]);
            }
        },
        4 => {
            out.append("4");
            proof {
                reveal_strlit("4");
                assert("4"@ =~= seq![dec_digit(4)]);
            }
        },
        5 => {
            out.append("5");
            proof {
                reveal_strlit("5");
                assert("5"@ =~= seq![dec_digit(5)]);
            }
        },
        6 => {
            out.append("6");
            proof {
                reveal_strlit("6");
                assert("6"@ =~= seq![dec_digit(6)]);
            }
        },
        7 => {
            out.append("7");
            proof {
                reveal_strlit("7");
                assert("7"@ =~= seq![dec_digit(7)]);
            }
        },
        8 => {
            out.append("8");
            proof {
                reveal_strlit("8");
                assert("8"@ =~= seq![dec_digit(8)]);
            }
        },
        _ => {
            out.append("9");
            proof {
                reveal_strlit("9");
                assert("9"@ =~= seq![dec_digit(9)]);
            }
        },
    }
    proof {
        if x >= 10 {
            assert(entry + (dec_str((x / 10) as nat) + seq![dec_digit((x % 10) as int)]) =~= (entry
                + dec_str((x / 10) as nat)) + seq![dec_digit((x % 10) as int)]);
        }
    }
}

/// The decimal text of `x`.
fn usize_to_string(x: usize) -> (r: String)
    ensures
        r@ == dec_str(x as nat),
{
    let mut s = String::new();
    push_decimal(x, &mut s);
    proof {
        assert(Seq::<char>::empty() + dec_str(x as nat) =~= dec_str(x as nat));
    }
    s
}

/// The tokenization of `s` contains at least one expression token.
pub open spec fn run_has_expression(s: Seq<char>) -> bool {
    exists|i: int|
        0 <= i < spec_tokenize(s).len() && spec_tokenize(s)[i].1 == TokenKind::Expression
}

/// Decide `run_has_expression` by tokenizing and scanning the tokens.
fn has_expression(run: &str) -> (r: bool)
    ensures
        r == run_has_expression(run@),
{
    let toks = tokenize(run);
    let ghost tm = token_models(toks@);
    let mut i: usize = 0;
    while i < toks.len()
        invariant
            i <= toks@.len(),
            tm == spec_tokenize(run@),
            tm.len() == toks@.len(),
            forall|k: int| 0 <= k < toks@.len() ==> tm[k] == (toks@[k].value@, toks@[k].kind),
            forall|k: int| 0 <= k < i ==> (#[trigger] tm[k]).1 != TokenKind::Expression,
        decreases toks@.len() - i,
    {
        let t = &toks[i];
        match t.kind {
            TokenKind::Expression => {
                proof {
                    assert(tm[i as int].1 == TokenKind::Expression);
                }
                return true;
            },
            TokenKind::Literal => {},
        }
        i = i + 1;
    }
    false
}

/// The finding text for step `index + 1` (displayed 1-based) of a job.
pub open spec fn run_expr_message(index: int, job: Seq<char>) -> Seq<char> {
    "Step "@ + dec_str((index + 1) as nat) + " of job "@ + job
        + " should not directly include GitHub expression in the 'run' field."@
}

/// The violations the steps of one job contribute, in step order: one per
/// step whose `run` text contains an expression, located at the `run` field.
pub open spec fn step_run_violations(job: Seq<char>, steps: Seq<StepModel>) -> Seq<ViolationModel>
    decreases steps.len(),
{
    if steps.len() == 0 {
        Seq::empty()
    } else {
        step_run_violations(job, steps.drop_last()) + match steps.last().run {
            Some(run) => if run_has_expression(run.value) {
                seq![
                    ViolationModel {
                        source: run.span,
                        message: run_expr_message(steps.len() - 1, job),
                    },
                ]
            } else {
                Seq::empty()
            },
            None => Seq::empty(),
        }
    }
}

/// The violations one job contributes: those of its steps, none without steps.
pub open spec fn job_expr_violations(e: (Seq<char>, SpannedModel<JobModel>)) -> Seq<ViolationModel> {
    match e.1.value.steps {
        Some(ss) => step_run_violations(e.0, ss.value),
        None => Seq::empty(),
    }
}

/// What `no_github_expr_in_run` reports: each job's contribution, in order.
pub open spec fn spec_no_github_expr_in_run(jobs: JobMapModel) -> Seq<ViolationModel>
    decreases jobs.len(),
{
    if jobs.len() == 0 {
        Seq::empty()
    } else {
        spec_no_github_expr_in_run(jobs.drop_last()) + job_expr_violations(jobs.last())
    }
}

/// Scan one job's steps and append the findings.
fn check_job_steps(job_name: &str, steps: &Vec<Step>, out: &mut Vec<PolicyViolation>)
    ensures
        violation_models(final(out)@) == violation_models(old(out)@) + step_run_violations(
            job_name@,
            steps_view(*steps),
        ),
{
    let ghost sm = steps_view(*steps);
    proof {
        assert(violation_models(out@) =~= violation_models(old(out)@) + step_run_violations(
            job_name@,
            sm.take(0),
        ));
    }
    let mut j: usize = 0;
    while j < steps.len()
        invariant
            j <= steps@.len(),
            sm == steps_view(*steps),
            sm.len() == steps@.len(),
            forall|k: int| 0 <= k < steps@.len() ==> sm[k] == steps@[k]@,
            violation_models(out@) == violation_models(old(out)@) + step_run_violations(
                job_name@,
                sm.take(j as int),
            ),
        decreases steps@.len() - j,
    {
        let s = &steps[j];
        let ghost prev = out@;
        proof {
            assert(sm.take(j as int + 1).drop_last() =~= sm.take(j as int));
            assert(sm.take(j as int + 1).last() == sm[j as int]);
        }
        match &s.run {
            Some(run) => {
                if has_expression(run.value.as_str()) {
                    let mut m = "Step ".to_string();
                    let idx = usize_to_string(j + 1);
                    m.append(idx.as_str());
                    m.append(" of job ");
                    m.append(job_name);
                    m.append(" should not directly include GitHub expression in the 'run' field.");
                    out.push(PolicyViolation { source: run.span, message: m });
                }
            },
            None => {},
        }
        proof {
            assert(violation_models(out@) =~= violation_models(prev) + match sm[j as int].run {
                Some(run) => if run_has_expression(run.value) {
                    seq![
                        ViolationModel {
                            source: run.span,
                            message: run_expr_message(j as int, job_name@),
                        },
                    ]
                } else {
                    Seq::empty()
                },
                None => Seq::empty(),
            });
        }
        j = j + 1;
    }
    proof {
        assert(sm.take(steps@.len() as int) =~= sm);
    }
}

/// Report every step that interpolates a GitHub expression directly inside
/// its `run` field.
pub fn no_github_expr_in_run(workflow: &Workflow) -> (r: Vec<PolicyViolation>)
    ensures
        violation_models(r@) == spec_no_github_expr_in_run(workflow@.jobs.value),
{
    let jobs = &workflow.jobs.value;
    let ghost jm = workflow@.jobs.value;
    let mut out: Vec<PolicyViolation> = Vec::new();
    proof {
        assert(violation_models(out@) =~= spec_no_github_expr_in_run(jm.take(0)));
    }
    let mut i: usize = 0;
    while i < jobs.len()
        invariant
            i <= jobs@.len(),
            jm == job_map_view(workflow.jobs.value),
            jm.len() == jobs@.len(),
            forall|k: int| 0 <= k < jobs@.len() ==> jm[k] == (jobs@[k].0@, jobs@[k].1@),
            violation_models(out@) == spec_no_github_expr_in_run(jm.take(i as int)),
        decreases jobs@.len() - i,
    {
        let e = &jobs[i];
        let ghost prev = out@;
        proof {
            assert(jm.take(i as int + 1).drop_last() =~= jm.take(i as int));
            assert(jm.take(i as int + 1).last() == jm[i as int]);
        }
        match &e.1.value.steps {
            Some(ss) => {
                check_job_steps(e.0.as_str(), &ss.value, &mut out);
            },
            None => {},
        }
        proof {
            assert(violation_models(out@) =~= violation_models(prev) + job_expr_violations(
                jm[i as int],
            ));
        }
        i = i + 1;
    }
    proof {
        assert(jm.take(jobs@.len() as int) =~= jm);
    }
    out
}

} // verus!
