//! Judging how a run went: a process that could not start, or that exited
//! with failure, becomes an error value that records what was attempted.

use vstd::prelude::*;

verus! {

/// How a process run ended, as the host observed it.
#[derive(Debug)]
pub enum RunReport {
    /// The process could not be started; `error` is the system's message.
    SpawnFailed { error: String },
    /// The process ran and exited; `status` describes its exit status.
    Exited { success: bool, status: String },
}

/// A run that failed: what was attempted, and what went wrong.
#[derive(Debug)]
pub struct ExecutionFailed {
    pub context: String,
    pub underlying: String,
}

pub open spec fn failure_message(context: Seq<char>, underlying: Seq<char>) -> Seq<char> {
    context + ": "@ + underlying
}

impl ExecutionFailed {
    /// The failure as one line: `context: underlying`.
    pub fn message(&self) -> (r: String)
        ensures
            r@ == failure_message(self.context@, self.underlying@),
    {
        let mut r = self.context.clone();
        r.append(": ");
        r.append(self.underlying.as_str());
        r
    }
}

/// Turns a run's report into success, or into a failure that carries
/// `context` and the system's account of what went wrong.
pub fn judge_run(context: &str, report: RunReport) -> (r: Result<(), ExecutionFailed>)
    ensures
        match report {
            RunReport::SpawnFailed { error } => r matches Err(f) && f.context@ == context@
                && f.underlying@ == error@,
            RunReport::Exited { success: true, .. } => r is Ok,
            RunReport::Exited { success: false, status } => r matches Err(f) && f.context@
                == context@ && f.underlying@ == status@,
        },
{
    match report {
        RunReport::SpawnFailed { error } => Err(
            ExecutionFailed { context: String::from_str(context), underlying: error },
        ),
        RunReport::Exited { success, status } => if success {
            Ok(())
        } else {
            Err(ExecutionFailed { context: String::from_str(context), underlying: status })
        },
    }
}

} // verus!
