//! The decisions of the dialogue that sets a project up: what the answers
//! mean. Asking the questions is left to the caller.

use vstd::prelude::*;
use crate::config::{
    window_views, AppConfig, AppConfigView, StorageBackend, TmuxWindow, TmuxWindowView,
};
use crate::path::{file_name, file_name_of};
use crate::text::{chars_of, same_text, trim, trimmed};

verus! {

/// Why the dialogue ends without settings.
#[derive(Debug, Clone, Copy, PartialEq, Eq, Structural)]
pub enum InitError {
    /// The tool of the issue tracker is not signed in.
    NotAuthenticated,
    /// The repository has no project board.
    NoProjects,
    /// The answer names none of the boards on offer.
    InvalidSelection,
}

impl InitError {
    /// The one-line message of an error.
    pub open spec fn message_of(self) -> Seq<char> {
        match self {
            InitError::NotAuthenticated => "GitHub CLI is not authenticated. Please run 'gh auth login' first."@,
            InitError::NoProjects => "No projects available"@,
            InitError::InvalidSelection => "Invalid project selection"@,
        }
    }

    /// The one-line message of this error.
    pub fn message(&self) -> (r: String)
        ensures
            r@ == self.message_of(),
    {
        match self {
            InitError::NotAuthenticated => "GitHub CLI is not authenticated. Please run 'gh auth login' first.".to_string(),
            InitError::NoProjects => "No projects available".to_string(),
            InitError::InvalidSelection => "Invalid project selection".to_string(),
        }
    }
}

/// What keeps the dialogue from going on to the project boards, if anything
/// does: the tool of the issue tracker is not signed in.
pub fn signed_in(authenticated: bool) -> (r: Result<(), InitError>)
    ensures
        authenticated ==> r is Ok,
        !authenticated ==> r == Err::<(), InitError>(InitError::NotAuthenticated),
{
    if authenticated {
        Ok(())
    } else {
        Err(InitError::NotAuthenticated)
    }
}

/// What keeps the dialogue from offering a choice among `count` boards, if
/// anything does: there is none.
pub fn boards_on_offer(count: usize) -> (r: Result<(), InitError>)
    ensures
        count > 0 ==> r is Ok,
        count == 0 ==> r == Err::<(), InitError>(InitError::NoProjects),
{
    if count > 0 {
        Ok(())
    } else {
        Err(InitError::NoProjects)
    }
}

/// The name of the project: the answer without the white space at its ends,
/// and where that is empty the final segment of the current directory, or
/// `default` where the directory has none.
pub open spec fn project_name_of(answer: Seq<char>, current_dir: Seq<char>) -> Seq<char> {
    if trimmed(answer).len() > 0 {
        trimmed(answer)
    } else {
        match file_name_of(current_dir) {
            Some(name) => name,
            None => "default"@,
        }
    }
}

/// The name of the project that the answer gives.
pub fn project_name(answer: &str, current_dir: &str) -> (r: String)
    ensures
        r@ == project_name_of(answer@, current_dir@),
{
    let given = trim(answer);
    if !given.as_str().is_empty() {
        given
    } else {
        match file_name(current_dir) {
            Some(name) => name,
            None => "default".to_string(),
        }
    }
}

/// Whether the answer chooses the project board as the place of the todos:
/// it is `2`. Any other answer keeps them locally.
pub fn wants_github(choice: &str) -> (r: bool)
    ensures
        r == (trimmed(choice@) == "2"@),
{
    let given = trim(choice);
    same_text(given.as_str(), "2")
}

/// The digit that a character stands for.
pub open spec fn digit_of(c: char) -> Option<nat> {
    if '0' <= c <= '9' {
        Some((c as nat - '0' as nat) as nat)
    } else {
        None
    }
}

/// The number that the first `n` characters of `s` write in decimal digits,
/// if they are digits all.
pub open spec fn number_upto(s: Seq<char>, n: int) -> Option<nat>
    decreases n,
{
    if n <= 0 || n > s.len() {
        Some(0)
    } else {
        match (number_upto(s, n - 1), digit_of(s[n - 1])) {
            (Some(v), Some(d)) => Some(v * 10 + d),
            _ => None,
        }
    }
}

/// The number that an answer writes: decimal digits, at least one, with or
/// without a plus sign before them and with or without white space around
/// them.
pub open spec fn number_in(answer: Seq<char>) -> Option<nat> {
    let t = trimmed(answer);
    let digits = if t.len() > 0 && t[0] == '+' {
        t.subrange(1, t.len() as int)
    } else {
        t
    };
    if digits.len() == 0 {
        None
    } else {
        number_upto(digits, digits.len() as int)
    }
}

/// The position of the board that an answer selects among `count` boards on
/// offer, which the dialogue numbers from one.
pub open spec fn selection_of(answer: Seq<char>, count: nat) -> Result<nat, InitError> {
    match number_in(answer) {
        Some(n) => if 1 <= n <= count {
            Ok((n - 1) as nat)
        } else {
            Err(InitError::InvalidSelection)
        },
        None => Err(InitError::InvalidSelection),
    }
}

/// Digits that are written never make the number smaller.
pub proof fn lemma_number_grows(s: Seq<char>, k: int, n: int)
    requires
        0 <= k <= n <= s.len(),
        number_upto(s, n) is Some,
    ensures
        number_upto(s, k) is Some,
        number_upto(s, k)->0 <= number_upto(s, n)->0,
    decreases n - k,
{
    if k < n {
        lemma_number_grows(s, k, n - 1);
    }
}

/// The number that the characters from `from` on write, where it is at most
/// `limit`.
fn small_number(cs: &Vec<char>, from: usize, limit: usize) -> (r: Option<usize>)
    requires
        from <= cs.len(),
    ensures
        ({
            let digits = cs@.subrange(from as int, cs.len() as int);
            match r {
                Some(v) => number_upto(digits, digits.len() as int) == Some(v as nat) && v <= limit,
                None => match number_upto(digits, digits.len() as int) {
                    Some(n) => n > limit,
                    None => true,
                },
            }
        }),
{
    let ghost digits = cs@.subrange(from as int, cs.len() as int);
    let mut value: usize = 0;
    let mut i: usize = from;
    while i < cs.len()
        invariant
            from <= i <= cs.len(),
            digits == cs@.subrange(from as int, cs.len() as int),
            number_upto(digits, i - from) == Some(value as nat),
            value <= limit,
        decreases cs.len() - i,
    {
        let c = cs[i];
        proof {
            assert(digits[i - from] == c);
        }
        if c < '0' || c > '9' {
            proof {
                if number_upto(digits, digits.len() as int) is Some {
                    lemma_number_grows(digits, i - from + 1, digits.len() as int);
                }
            }
            return None;
        }
        let d = (c as u32 - '0' as u32) as usize;
        let next = match value.checked_mul(10) {
            Some(tens) => tens.checked_add(d),
            None => None,
        };
        let fits = match next {
            Some(v) => v <= limit,
            None => false,
        };
        if !fits {
            proof {
                if number_upto(digits, digits.len() as int) is Some {
                    lemma_number_grows(digits, i - from + 1, digits.len() as int);
                }
            }
            return None;
        }
        value = next.unwrap();
        i += 1;
    }
    Some(value)
}

/// The position of the board that an answer selects among `count` boards on
/// offer. Fails with `InvalidSelection` where the answer writes no number
/// from one to `count`.
pub fn select_project(answer: &str, count: usize) -> (r: Result<usize, InitError>)
    ensures
        match r {
            Ok(i) => selection_of(answer@, count as nat) == Ok::<nat, InitError>(i as nat),
            Err(e) => selection_of(answer@, count as nat) == Err::<nat, InitError>(e),
        },
{
    let given = trim(answer);
    let cs = chars_of(given.as_str());
    let from: usize = if cs.len() > 0 && cs[0] == '+' {
        1
    } else {
        0
    };
    proof {
        if from == 0 {
            assert(cs@.subrange(0, cs.len() as int) =~= cs@);
        }
    }
    if from == cs.len() {
        return Err(InitError::InvalidSelection);
    }
    match small_number(&cs, from, count) {
        Some(n) => {
            if n >= 1 {
                Ok(n - 1)
            } else {
                Err(InitError::InvalidSelection)
            }
        },
        None => Err(InitError::InvalidSelection),
    }
}

/// The window plan of a project that was just set up: an editor, a server
/// that starts with its command, and a shell.
pub open spec fn first_plan() -> Seq<TmuxWindowView> {
    seq![
        TmuxWindowView { name: "editor"@, command: None },
        TmuxWindowView {
            name: "server"@,
            command: Some("omnara --dangerously-skip-permissions"@),
        },
        TmuxWindowView { name: "shell"@, command: None },
    ]
}

/// The settings of a project that was just set up under the name `name`,
/// with its todos kept in `storage_backend`: no todo yet, the naming pattern
/// `Add feature`, and the first window plan.
pub open spec fn first_settings(
    name: Seq<char>,
    storage_backend: crate::config::StorageBackendView,
) -> AppConfigView {
    AppConfigView {
        name,
        worktree_naming: "Add feature"@,
        storage_backend,
        todos: Seq::empty(),
        windows: first_plan(),
    }
}

/// The settings of a project that was just set up.
pub fn initial_settings(name: String, storage_backend: StorageBackend) -> (r: AppConfig)
    ensures
        r@ == first_settings(name@, storage_backend@),
{
    let mut windows: Vec<TmuxWindow> = Vec::new();
    windows.push(TmuxWindow { name: "editor".to_string(), command: None });
    windows.push(
        TmuxWindow {
            name: "server".to_string(),
            command: Some("omnara --dangerously-skip-permissions".to_string()),
        },
    );
    windows.push(TmuxWindow { name: "shell".to_string(), command: None });
    assert(window_views(windows@) =~= first_plan());
    let r = AppConfig {
        name,
        worktree_naming: "Add feature".to_string(),
        storage_backend,
        todos: Vec::new(),
        windows,
    };
    assert(r@.todos =~= Seq::<crate::config::TodoView>::empty());
    r
}

} // verus!
