//! What the command line asks for.

use vstd::prelude::*;

verus! {

/// The arguments of the program: the name of a worktree to jump to, if one
/// was given.
#[derive(Debug)]
pub struct Args {
    pub worktree: Option<String>,
}

} // verus!
