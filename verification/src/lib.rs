use vstd::prelude::*;

pub mod checks;
pub mod parser;
pub mod policies;
pub mod span;

pub use policies::{get_policies, Policy};

verus! {

/// Errors surfaced by this library and its callers: a failure to read input
/// at all, or a failure to decode it into the workflow model.
#[derive(Debug, Clone, PartialEq, Eq)]
pub enum GhastlyError {
    /// The input could not be read (reported by the caller doing the I/O).
    Io(String),
    /// The input could not be parsed or decoded into a workflow.
    Decode(String),
}

impl GhastlyError {
    /// The human-readable text of the error.
    pub fn message(&self) -> (r: &String)
        ensures
            match self {
                GhastlyError::Io(m) => r == m,
                GhastlyError::Decode(m) => r == m,
            },
    {
        match self {
            GhastlyError::Io(m) => m,
            GhastlyError::Decode(m) => m,
        }
    }
}

pub type GhastlyResult<T> = Result<T, GhastlyError>;

/// Check workflow YAML text against every registered policy: parse and
/// decode the text, then run each policy in registry order. A text that does
/// not decode yields an error and no check runs; a text that decodes yields
/// exactly one output per registered policy, a clean policy appearing with an
/// empty violation list.
pub fn check_workflow(text: &str) -> (r: Result<Vec<policies::PolicyCheckOutput>, GhastlyError>)
    ensures
        match r {
            Ok(outs) => match crate::parser::yaml::yaml_doc(text@) {
                Some(m) => match crate::parser::workflow::spec_decode_workflow(m) {
                    Ok(w) => {
                        &&& outs@.len() == policies::default_policy_checks().len()
                        &&& forall|i: int|
                            0 <= i < outs@.len() ==> (#[trigger] outs@[i]).policy.check_fn
                                == policies::default_policy_checks()[i] && policies::violation_models(
                                outs@[i].violations@,
                            ) == policies::spec_policy_check(
                                policies::default_policy_checks()[i],
                                w,
                            )
                    },
                    Err(_) => false,
                },
                None => false,
            },
            Err(e) => match crate::parser::yaml::yaml_doc(text@) {
                None => e is Decode,
                Some(m) => match e {
                    GhastlyError::Decode(s) => crate::parser::workflow::spec_decode_workflow(m)
                        == Err::<crate::parser::workflow::WorkflowModel, Seq<char>>(s@),
                    GhastlyError::Io(_) => false,
                },
            },
        },
{
    let workflow = match crate::parser::workflow::parse_workflow(text) {
        Ok(w) => w,
        Err(e) => {
            return Err(e);
        },
    };
    let registry = policies::get_policies();
    Ok(policies::run_policies(&registry, &workflow))
}

} // verus!
