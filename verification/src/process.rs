//! What the caller reports of a command it was asked to run.

use vstd::prelude::*;

verus! {

/// How a command ended.
#[derive(Debug)]
pub enum Outcome {
    /// The process could not be started; holds the reason.
    NotStarted(String),
    /// The process ran to its end: whether it reported success, and what it
    /// wrote to its two output streams.
    Exited { success: bool, stdout: String, stderr: String },
}

impl Outcome {
    /// Whether the process ran to its end and reported success.
    pub open spec fn succeeded(&self) -> bool {
        *self matches Outcome::Exited { success, .. } && success
    }

    /// Whether the process ran to its end and reported success.
    #[verifier::when_used_as_spec(succeeded)]
    pub fn is_success(&self) -> (r: bool)
        ensures
            r == self.succeeded(),
    {
        match self {
            Outcome::Exited { success, .. } => *success,
            Outcome::NotStarted(_) => false,
        }
    }
}

/// A list of command arguments made of the given texts.
pub fn arguments(parts: &[&str]) -> (r: Vec<String>)
    ensures
        r.len() == parts.len(),
        forall|i: int| 0 <= i < parts.len() ==> (#[trigger] r[i])@ == parts[i]@,
{
    let mut out: Vec<String> = Vec::new();
    let mut i: usize = 0;
    while i < parts.len()
        invariant
            i <= parts.len(),
            out.len() == i,
            forall|j: int| 0 <= j < i ==> (#[trigger] out[j])@ == parts[j]@,
        decreases parts.len() - i,
    {
        out.push(parts[i].to_string());
        i += 1;
    }
    out
}

} // verus!
