//! Branch-name resolution and upstream divergence, over the outcomes that
//! the repository layer reports.

use vstd::prelude::*;

verus! {

/// The error type every repository-interaction failure is reported as:
/// a single descriptive message.
#[derive(Debug)]
pub struct StatusError {
    pub message: String,
}

/// The outcome of resolving the repository's head reference, as the
/// repository layer reports it: a resolved reference (whose shorthand
/// display form may be unavailable), the two benign failures that mean
/// "no branch", or any other failure with its message.
#[derive(Debug)]
pub enum HeadOutcome {
    Resolved { shorthand: Option<String> },
    Unborn,
    NotFound,
    Failed { message: String },
}

impl HeadOutcome {
    /// Whether this outcome aborts the run rather than degrading to the
    /// sentinel branch name.
    pub open spec fn spec_is_fatal(self) -> bool {
        self matches HeadOutcome::Failed { .. }
    }

    /// The branch display name a non-fatal outcome yields: the shorthand
    /// where one resolved, the sentinel "no branch" everywhere else.
    pub open spec fn spec_branch_name(self) -> Seq<char> {
        match self {
            HeadOutcome::Resolved { shorthand: Some(name) } => name@,
            _ => "no branch"@,
        }
    }
}

/// Turns a head-resolution outcome into the branch display name.
/// An unborn-branch or not-found failure is not an error: it yields the
/// sentinel "no branch", as does a resolved reference without a shorthand
/// form. Any other failure propagates with its message.
pub fn resolve_branch_name(head: HeadOutcome) -> (r: Result<String, StatusError>)
    ensures
        head.spec_is_fatal() ==> (r matches Err(e) && e.message@ == head->Failed_message@),
        !head.spec_is_fatal() ==> (r matches Ok(name) && name@ == head.spec_branch_name()),
{
    match head {
        HeadOutcome::Resolved { shorthand: Some(name) } => Ok(name),
        HeadOutcome::Resolved { shorthand: None } => Ok(String::from_str("no branch")),
        HeadOutcome::Unborn => Ok(String::from_str("no branch")),
        HeadOutcome::NotFound => Ok(String::from_str("no branch")),
        HeadOutcome::Failed { message } => Err(StatusError { message }),
    }
}

/// What the divergence computation degrades to: a failed resolution (most
/// commonly, no upstream configured) is swallowed and counts as zero ahead,
/// zero behind.
pub open spec fn spec_divergence(outcome: Option<(usize, usize)>) -> (usize, usize) {
    match outcome {
        Some(counts) => counts,
        None => (0usize, 0usize),
    }
}

/// Turns the outcome of the ahead/behind computation into the pair of
/// divergence counts, mapping any failure to (0, 0) — a deliberate
/// non-fatal degradation.
pub fn divergence_counts(outcome: Option<(usize, usize)>) -> (r: (usize, usize))
    ensures
        r == spec_divergence(outcome),
{
    match outcome {
        Some(counts) => counts,
        None => (0, 0),
    }
}

} // verus!
