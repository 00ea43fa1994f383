//! The worktree directory: the records of a worktree listing, the commands
//! that query and change the set of worktrees, and what their outcomes mean.
//!
//! Nothing here runs a process. A command is the list of its arguments, and an
//! outcome is what the finished process left behind.

use vstd::prelude::*;
use crate::config::{window_views, TmuxWindow};
use crate::path::{
    file_name, file_name_of, is_segment, lemma_sibling_is_named, path_starts_with, sibling,
    sibling_of, starts_with,
};
use crate::process::{arguments, Outcome};
use crate::text::{
    appended, chars_of, has_prefix, lines, lines_of, opt_text, same_text, skip_leading, slice_of,
    span_has_prefix, strip_leading, texts, trim, trimmed,
};
use crate::tmux::{start_session, SessionStart, Stage};

verus! {

/// A checked-out working copy: its name, where it lies, and its branch.
#[derive(Debug)]
pub struct Worktree {
    pub name: String,
    pub path: String,
    pub branch: String,
}

/// What a worktree is, as plain text.
pub struct WorktreeView {
    pub name: Seq<char>,
    pub path: Seq<char>,
    pub branch: Seq<char>,
}

impl View for Worktree {
    type V = WorktreeView;

    open spec fn view(&self) -> WorktreeView {
        WorktreeView { name: self.name@, path: self.path@, branch: self.branch@ }
    }
}

impl Clone for Worktree {
    fn clone(&self) -> (r: Self)
        ensures
            r@ == self@,
    {
        Worktree { name: self.name.clone(), path: self.path.clone(), branch: self.branch.clone() }
    }
}

/// The views of a sequence of worktrees.
pub open spec fn worktree_views(v: Seq<Worktree>) -> Seq<WorktreeView> {
    v.map_values(|w: Worktree| w@)
}

/// A copy of a worktree listing.
pub fn clone_worktrees(v: &Vec<Worktree>) -> (r: Vec<Worktree>)
    ensures
        worktree_views(r@) == worktree_views(v@),
{
    let mut out: Vec<Worktree> = Vec::new();
    let mut i: usize = 0;
    while i < v.len()
        invariant
            i <= v.len(),
            out.len() == i,
            forall|j: int| 0 <= j < i ==> out[j]@ == v[j]@,
        decreases v.len() - i,
    {
        out.push(v[i].clone());
        i += 1;
    }
    assert(worktree_views(out@) =~= worktree_views(v@));
    out
}

/// Why an operation on the worktree directory failed.
#[derive(Debug)]
pub enum GitError {
    /// The tool could not be run; holds the message that says which query
    /// this was.
    NotRun(String),
    /// The listing failed; holds what the tool reported.
    Directory(String),
    /// The current directory lies in no repository.
    NotInRepository,
    /// No worktree has this name.
    NotFound(String),
    /// The worktree could not be created; holds what the tool reported.
    Create(String),
    /// The status query failed; holds what the tool reported.
    Status(String),
    /// The worktree could not be deleted; holds what the tool reported.
    Delete(String),
}

/// The one-line message of an error.
pub open spec fn message_of(e: GitError) -> Seq<char> {
    match e {
        GitError::NotRun(message) => message@,
        GitError::Directory(detail) => "git worktree list failed: "@ + detail@,
        GitError::NotInRepository => "Not in a git repository"@,
        GitError::NotFound(name) => "Worktree '"@ + name@ + "' not found"@,
        GitError::Create(detail) => "Failed to create worktree: "@ + detail@,
        GitError::Status(detail) => "git status failed: "@ + detail@,
        GitError::Delete(detail) => "Failed to delete worktree: "@ + detail@,
    }
}

impl GitError {
    /// The one-line message of this error.
    pub fn message(&self) -> (r: String)
        ensures
            r@ == message_of(*self),
    {
        match self {
            GitError::NotRun(message) => message.clone(),
            GitError::Directory(detail) => appended("git worktree list failed: ", detail.as_str()),
            GitError::NotInRepository => "Not in a git repository".to_string(),
            GitError::NotFound(name) => {
                let mut s = appended("Worktree '", name.as_str());
                s.append("' not found");
                s
            },
            GitError::Create(detail) => appended("Failed to create worktree: ", detail.as_str()),
            GitError::Status(detail) => appended("git status failed: ", detail.as_str()),
            GitError::Delete(detail) => appended("Failed to delete worktree: ", detail.as_str()),
        }
    }
}

/// The name of the worktree at `path`: the final segment of the path, or
/// `unknown` where the path has none.
pub open spec fn name_of(path: Seq<char>) -> Seq<char> {
    match file_name_of(path) {
        Some(name) => name,
        None => "unknown"@,
    }
}

/// The record of the worktree at `path` on `branch`.
pub open spec fn record(path: Seq<char>, branch: Seq<char>) -> WorktreeView {
    WorktreeView { name: name_of(path), path, branch }
}

/// What the end of a record yields: the worktree, where both its path and its
/// branch were seen, and nothing otherwise.
pub open spec fn flushed(path: Option<Seq<char>>, branch: Option<Seq<char>>) -> Seq<
    WorktreeView,
> {
    match (path, branch) {
        (Some(p), Some(b)) => seq![record(p, b)],
        _ => Seq::empty(),
    }
}

/// The path that a `worktree` line names: the line without its leading
/// `worktree ` prefixes.
pub open spec fn path_in(line: Seq<char>) -> Seq<char> {
    strip_leading(line, "worktree "@)
}

/// The branch that a `branch` line names: the line without its leading
/// `branch ` prefixes and then without its leading `refs/heads/` prefixes.
pub open spec fn branch_in(line: Seq<char>) -> Seq<char> {
    strip_leading(strip_leading(line, "branch "@), "refs/heads/"@)
}

/// The worktrees that the lines from `k` on describe, given the path and the
/// branch seen so far in the record at hand. A `worktree` line sets the path, a
/// `branch` line the branch, an empty line ends the record, and any other line
/// is passed over. The end of the lines ends the last record.
pub open spec fn parsed_from(
    lines: Seq<Seq<char>>,
    k: int,
    path: Option<Seq<char>>,
    branch: Option<Seq<char>>,
) -> Seq<WorktreeView>
    decreases lines.len() - k,
{
    if k < 0 || k >= lines.len() {
        flushed(path, branch)
    } else if has_prefix(lines[k], "worktree "@) {
        parsed_from(lines, k + 1, Some(path_in(lines[k])), branch)
    } else if has_prefix(lines[k], "branch "@) {
        parsed_from(lines, k + 1, path, Some(branch_in(lines[k])))
    } else if lines[k].len() == 0 {
        flushed(path, branch) + parsed_from(lines, k + 1, None, None)
    } else {
        parsed_from(lines, k + 1, path, branch)
    }
}

/// The worktrees that a listing describes.
pub open spec fn parsed(output: Seq<char>) -> Seq<WorktreeView> {
    parsed_from(lines_of(output), 0, None, None)
}

/// Every worktree that the lines describe is named by the final segment of
/// its path.
pub proof fn lemma_parsed_names(
    lines: Seq<Seq<char>>,
    k: int,
    path: Option<Seq<char>>,
    branch: Option<Seq<char>>,
)
    requires
        0 <= k,
    ensures
        forall|i: int|
            0 <= i < parsed_from(lines, k, path, branch).len() ==> (#[trigger] parsed_from(
                lines,
                k,
                path,
                branch,
            )[i]).name == name_of(parsed_from(lines, k, path, branch)[i].path),
    decreases lines.len() - k,
{
    let all = parsed_from(lines, k, path, branch);
    if k >= lines.len() {
        assert(all == flushed(path, branch));
    } else if has_prefix(lines[k], "worktree "@) {
        lemma_parsed_names(lines, k + 1, Some(path_in(lines[k])), branch);
        assert(all == parsed_from(lines, k + 1, Some(path_in(lines[k])), branch));
    } else if has_prefix(lines[k], "branch "@) {
        lemma_parsed_names(lines, k + 1, path, Some(branch_in(lines[k])));
        assert(all == parsed_from(lines, k + 1, path, Some(branch_in(lines[k]))));
    } else if lines[k].len() == 0 {
        lemma_parsed_names(lines, k + 1, None, None);
        let first = flushed(path, branch);
        let rest = parsed_from(lines, k + 1, None, None);
        assert(all == first + rest);
        assert forall|i: int| 0 <= i < all.len() implies (#[trigger] all[i]).name == name_of(
            all[i].path,
        ) by {
            if i >= first.len() {
                assert(all[i] == rest[i - first.len()]);
            }
        }
    } else {
        lemma_parsed_names(lines, k + 1, path, branch);
        assert(all == parsed_from(lines, k + 1, path, branch));
    }
}

/// A worktree that is created under a plain name beside the repository is
/// named by that name once it is listed: the name of a todo's worktree, of its
/// directory and of its session are one.
pub proof fn lemma_created_worktree_is_named(git_root: Seq<char>, name: Seq<char>)
    requires
        is_segment(name),
    ensures
        name_of(sibling_of(git_root, name)) == name,
{
    lemma_sibling_is_named(git_root, name);
}

/// Ends the record at hand.
fn flush(path: Option<String>, branch: Option<String>, out: &mut Vec<Worktree>)
    ensures
        worktree_views(final(out)@) == worktree_views(old(out)@) + flushed(
            opt_text(path),
            opt_text(branch),
        ),
{
    let ghost before = worktree_views(out@);
    match (path, branch) {
        (Some(p), Some(b)) => {
            let name = match file_name(p.as_str()) {
                Some(n) => n,
                None => "unknown".to_string(),
            };
            let w = Worktree { name, path: p, branch: b };
            out.push(w);
            assert(worktree_views(out@) =~= before + seq![w@]);
        },
        _ => {
            assert(worktree_views(out@) =~= before + Seq::<WorktreeView>::empty());
        },
    }
}

/// Reads a worktree listing in the line-based format of the version-control
/// tool. Lines that fit no record are skipped, so every text is accepted.
pub fn parse_worktrees(output: &str) -> (r: Result<Vec<Worktree>, GitError>)
    ensures
        r matches Ok(v) && worktree_views(v@) == parsed(output@),
{
    let ls = lines(output);
    let worktree_pat = chars_of("worktree ");
    let branch_pat = chars_of("branch ");
    let refs_pat = chars_of("refs/heads/");
    proof {
        reveal_strlit("worktree ");
        reveal_strlit("branch ");
        reveal_strlit("refs/heads/");
    }
    let mut out: Vec<Worktree> = Vec::new();
    let mut path: Option<String> = None;
    let mut branch: Option<String> = None;
    let mut k: usize = 0;
    while k < ls.len()
        invariant
            k <= ls.len(),
            texts(ls@) == lines_of(output@),
            worktree_pat@ == "worktree "@,
            branch_pat@ == "branch "@,
            refs_pat@ == "refs/heads/"@,
            worktree_pat@.len() > 0,
            branch_pat@.len() > 0,
            refs_pat@.len() > 0,
            worktree_views(out@) + parsed_from(
                texts(ls@),
                k as int,
                opt_text(path),
                opt_text(branch),
            ) == parsed(output@),
        decreases ls.len() - k,
    {
        let line = ls[k].as_str();
        let cs = chars_of(line);
        let n = cs.len();
        proof {
            assert(texts(ls@)[k as int] == line@);
            assert(cs@.subrange(0, n as int) =~= line@);
        }
        if span_has_prefix(&cs, 0, n, &worktree_pat) {
            let a = skip_leading(&cs, 0, n, &worktree_pat);
            path = Some(slice_of(line, a, n));
        } else if span_has_prefix(&cs, 0, n, &branch_pat) {
            let a = skip_leading(&cs, 0, n, &branch_pat);
            let b = skip_leading(&cs, a, n, &refs_pat);
            branch = Some(slice_of(line, b, n));
        } else if n == 0 {
            let ghost before = worktree_views(out@);
            let ghost rest = parsed_from(texts(ls@), k + 1, None, None);
            let p = path.take();
            let b = branch.take();
            flush(p, b, &mut out);
            assert((before + flushed(opt_text(p), opt_text(b))) + rest =~= before + (flushed(
                opt_text(p),
                opt_text(b),
            ) + rest));
        }
        k += 1;
    }
    flush(path, branch, &mut out);
    Ok(out)
}

/// The first position at or after `from` whose worktree is named `name`, or
/// the length of the listing.
pub open spec fn first_named(worktrees: Seq<WorktreeView>, name: Seq<char>, from: int) -> int
    decreases worktrees.len() - from,
{
    if from < 0 || from >= worktrees.len() {
        worktrees.len() as int
    } else if worktrees[from].name == name {
        from
    } else {
        first_named(worktrees, name, from + 1)
    }
}

/// `first_named` lands on a worktree named `name` or on the end, and passes no
/// such worktree on the way.
pub proof fn lemma_first_named(worktrees: Seq<WorktreeView>, name: Seq<char>, from: int)
    requires
        0 <= from <= worktrees.len(),
    ensures
        from <= first_named(worktrees, name, from) <= worktrees.len(),
        first_named(worktrees, name, from) < worktrees.len() ==> worktrees[first_named(
            worktrees,
            name,
            from,
        )].name == name,
        forall|j: int|
            from <= j < first_named(worktrees, name, from) ==> (#[trigger] worktrees[j]).name
                != name,
    decreases worktrees.len() - from,
{
    if from < worktrees.len() && worktrees[from].name != name {
        lemma_first_named(worktrees, name, from + 1);
    }
}

/// Where the first worktree named `name` stands in a listing, if there is one.
pub fn position_of(worktrees: &Vec<Worktree>, name: &str) -> (r: Option<usize>)
    ensures
        match r {
            Some(i) => i < worktrees.len() && i == first_named(
                worktree_views(worktrees@),
                name@,
                0,
            ),
            None => first_named(worktree_views(worktrees@), name@, 0) == worktrees.len(),
        },
{
    let mut i: usize = 0;
    while i < worktrees.len()
        invariant
            i <= worktrees.len(),
            first_named(worktree_views(worktrees@), name@, 0) == first_named(
                worktree_views(worktrees@),
                name@,
                i as int,
            ),
        decreases worktrees.len() - i,
    {
        proof {
            assert(worktree_views(worktrees@)[i as int] == worktrees[i as int]@);
        }
        if same_text(worktrees[i].name.as_str(), name) {
            return Some(i);
        }
        i += 1;
    }
    None
}

/// The first worktree of the listing that is named `name`. Fails with
/// `NotFound`, which holds `name`, exactly when the listing has none.
pub fn find_worktree(worktrees: &Vec<Worktree>, name: &str) -> (r: Result<Worktree, GitError>)
    ensures
        match r {
            Ok(w) => {
                let i = first_named(worktree_views(worktrees@), name@, 0);
                i < worktrees.len() && w@ == worktrees[i]@
            },
            Err(e) => first_named(worktree_views(worktrees@), name@, 0) == worktrees.len() && (
            e matches GitError::NotFound(n) && n@ == name@),
        },
{
    match position_of(worktrees, name) {
        Some(i) => Ok(worktrees[i].clone()),
        None => Err(GitError::NotFound(name.to_string())),
    }
}

/// The first position at or after `from` whose worktree lies at or above
/// `dir`, or the length of the listing.
pub open spec fn first_around(worktrees: Seq<WorktreeView>, dir: Seq<char>, from: int) -> int
    decreases worktrees.len() - from,
{
    if from < 0 || from >= worktrees.len() {
        worktrees.len() as int
    } else if path_starts_with(dir, worktrees[from].path) {
        from
    } else {
        first_around(worktrees, dir, from + 1)
    }
}

/// The name of the first worktree of the listing in which `current_dir` lies,
/// if there is one.
pub fn get_current_worktree(current_dir: &str, worktrees: &Vec<Worktree>) -> (r: Option<String>)
    ensures
        match r {
            Some(name) => {
                let i = first_around(worktree_views(worktrees@), current_dir@, 0);
                i < worktrees.len() && name@ == worktrees[i]@.name
            },
            None => first_around(worktree_views(worktrees@), current_dir@, 0) == worktrees.len(),
        },
{
    let mut i: usize = 0;
    while i < worktrees.len()
        invariant
            i <= worktrees.len(),
            first_around(worktree_views(worktrees@), current_dir@, 0) == first_around(
                worktree_views(worktrees@),
                current_dir@,
                i as int,
            ),
        decreases worktrees.len() - i,
    {
        proof {
            assert(worktree_views(worktrees@)[i as int] == worktrees[i as int]@);
        }
        if starts_with(current_dir, worktrees[i].path.as_str()) {
            return Some(worktrees[i].name.clone());
        }
        i += 1;
    }
    None
}

/// The arguments that ask the tool for the worktree listing.
pub open spec fn list_arguments() -> Seq<Seq<char>> {
    seq!["worktree"@, "list"@, "--porcelain"@]
}

/// The command that lists the worktrees.
pub fn list_command() -> (r: Vec<String>)
    ensures
        texts(r@) == list_arguments(),
{
    let r = arguments(&["worktree", "list", "--porcelain"]);
    assert(texts(r@) =~= list_arguments());
    r
}

/// What the listing command's outcome means: the worktrees that its output
/// describes where it succeeded, `Directory` with what the tool reported
/// where it failed, and `NotRun` where it could not be started.
pub fn list_worktrees(outcome: &Outcome) -> (r: Result<Vec<Worktree>, GitError>)
    ensures
        match (*outcome, r) {
            (Outcome::NotStarted(_), Err(GitError::NotRun(m))) => m@
                == "Failed to execute git worktree list"@,
            (Outcome::Exited { success: false, stderr, .. }, Err(GitError::Directory(d))) => d@
                == stderr@,
            (Outcome::Exited { success: true, stdout, .. }, Ok(v)) => worktree_views(v@) == parsed(
                stdout@,
            ),
            _ => false,
        },
{
    match outcome {
        Outcome::NotStarted(_) => Err(
            GitError::NotRun("Failed to execute git worktree list".to_string()),
        ),
        Outcome::Exited { success, stdout, stderr } => {
            if *success {
                parse_worktrees(stdout.as_str())
            } else {
                Err(GitError::Directory(stderr.clone()))
            }
        },
    }
}

/// The arguments that ask the tool for the root of the repository.
pub open spec fn git_root_arguments() -> Seq<Seq<char>> {
    seq!["rev-parse"@, "--show-toplevel"@]
}

/// The command that asks for the root of the repository.
pub fn git_root_command() -> (r: Vec<String>)
    ensures
        texts(r@) == git_root_arguments(),
{
    let r = arguments(&["rev-parse", "--show-toplevel"]);
    assert(texts(r@) =~= git_root_arguments());
    r
}

/// What the root query's outcome means: the trimmed output where it
/// succeeded, `NotInRepository` where it failed, and `NotRun` where it could
/// not be started.
pub fn get_git_root(outcome: &Outcome) -> (r: Result<String, GitError>)
    ensures
        match (*outcome, r) {
            (Outcome::NotStarted(_), Err(GitError::NotRun(m))) => m@ == "Failed to get git root"@,
            (Outcome::Exited { success: false, .. }, Err(GitError::NotInRepository)) => true,
            (Outcome::Exited { success: true, stdout, .. }, Ok(root)) => root@ == trimmed(stdout@),
            _ => false,
        },
{
    match outcome {
        Outcome::NotStarted(_) => Err(GitError::NotRun("Failed to get git root".to_string())),
        Outcome::Exited { success, stdout, .. } => {
            if *success {
                Ok(trim(stdout.as_str()))
            } else {
                Err(GitError::NotInRepository)
            }
        },
    }
}

/// Where a new worktree named `name` lies: beside the root of the repository.
pub fn worktree_path(git_root: &str, name: &str) -> (r: String)
    ensures
        r@ == sibling_of(git_root@, name@),
{
    sibling(git_root, name)
}

/// The arguments that create a worktree at `path`, on a new branch where one
/// is given.
pub open spec fn create_arguments(path: Seq<char>, branch: Option<Seq<char>>) -> Seq<Seq<char>> {
    match branch {
        Some(b) => seq!["worktree"@, "add"@, "-b"@, b, path],
        None => seq!["worktree"@, "add"@, path],
    }
}

/// The command that creates a worktree.
pub fn create_command(path: &str, branch: Option<&str>) -> (r: Vec<String>)
    ensures
        texts(r@) == create_arguments(
            path@,
            match branch {
                Some(b) => Some(b@),
                None => None,
            },
        ),
{
    match branch {
        Some(b) => {
            let r = arguments(&["worktree", "add", "-b", b, path]);
            assert(texts(r@) =~= create_arguments(path@, Some(b@)));
            r
        },
        None => {
            let r = arguments(&["worktree", "add", path]);
            assert(texts(r@) =~= create_arguments(path@, None));
            r
        },
    }
}

/// What the outcome of creating the worktree at `path` means: `path` where
/// the tool succeeded, `Create` with what it reported where it failed, and
/// `NotRun` where it could not be started.
pub fn create_worktree(outcome: &Outcome, path: String) -> (r: Result<String, GitError>)
    ensures
        match (*outcome, r) {
            (Outcome::NotStarted(_), Err(GitError::NotRun(m))) => m@
                == "Failed to create worktree"@,
            (Outcome::Exited { success: false, stderr, .. }, Err(GitError::Create(d))) => d@
                == stderr@,
            (Outcome::Exited { success: true, .. }, Ok(p)) => p@ == path@,
            _ => false,
        },
{
    match outcome {
        Outcome::NotStarted(_) => Err(GitError::NotRun("Failed to create worktree".to_string())),
        Outcome::Exited { success, stderr, .. } => {
            if *success {
                Ok(path)
            } else {
                Err(GitError::Create(stderr.clone()))
            }
        },
    }
}

/// The arguments that ask for the uncommitted changes of the worktree at
/// `path`.
pub open spec fn status_arguments(path: Seq<char>) -> Seq<Seq<char>> {
    seq!["-C"@, path, "status"@, "--porcelain"@]
}

/// The command that asks for a worktree's uncommitted changes.
pub fn status_command(path: &str) -> (r: Vec<String>)
    ensures
        texts(r@) == status_arguments(path@),
{
    let r = arguments(&["-C", path, "status", "--porcelain"]);
    assert(texts(r@) =~= status_arguments(path@));
    r
}

/// What the status query's outcome means: a worktree is dirty exactly when
/// the query printed anything. Fails with `Status` and what the tool reported
/// where the query failed, and with `NotRun` where it could not be started.
pub fn is_worktree_dirty(outcome: &Outcome) -> (r: Result<bool, GitError>)
    ensures
        match (*outcome, r) {
            (Outcome::NotStarted(_), Err(GitError::NotRun(m))) => m@
                == "Failed to check worktree status"@,
            (Outcome::Exited { success: false, stderr, .. }, Err(GitError::Status(d))) => d@
                == stderr@,
            (Outcome::Exited { success: true, stdout, .. }, Ok(dirty)) => dirty == (stdout@.len()
                > 0),
            _ => false,
        },
{
    match outcome {
        Outcome::NotStarted(_) => Err(
            GitError::NotRun("Failed to check worktree status".to_string()),
        ),
        Outcome::Exited { success, stdout, stderr } => {
            if *success {
                Ok(!stdout.as_str().is_empty())
            } else {
                Err(GitError::Status(stderr.clone()))
            }
        },
    }
}

/// The arguments that delete the worktree at `path`, by force where asked.
pub open spec fn delete_arguments(path: Seq<char>, force: bool) -> Seq<Seq<char>> {
    if force {
        seq!["worktree"@, "remove"@, "--force"@, path]
    } else {
        seq!["worktree"@, "remove"@, path]
    }
}

/// The command that deletes a worktree. A worktree with uncommitted changes
/// is deleted by force only.
pub fn delete_command(path: &str, force: bool) -> (r: Vec<String>)
    ensures
        texts(r@) == delete_arguments(path@, force),
{
    if force {
        let r = arguments(&["worktree", "remove", "--force", path]);
        assert(texts(r@) =~= delete_arguments(path@, true));
        r
    } else {
        let r = arguments(&["worktree", "remove", path]);
        assert(texts(r@) =~= delete_arguments(path@, false));
        r
    }
}

/// What the outcome of deleting a worktree means: `Delete` with what the tool
/// reported where it failed, and `NotRun` where it could not be started.
pub fn delete_worktree(outcome: &Outcome) -> (r: Result<(), GitError>)
    ensures
        match (*outcome, r) {
            (Outcome::NotStarted(_), Err(GitError::NotRun(m))) => m@
                == "Failed to delete worktree"@,
            (Outcome::Exited { success: false, stderr, .. }, Err(GitError::Delete(d))) => d@
                == stderr@,
            (Outcome::Exited { success: true, .. }, Ok(_)) => true,
            _ => false,
        },
{
    match outcome {
        Outcome::NotStarted(_) => Err(GitError::NotRun("Failed to delete worktree".to_string())),
        Outcome::Exited { success, stderr, .. } => {
            if *success {
                Ok(())
            } else {
                Err(GitError::Delete(stderr.clone()))
            }
        },
    }
}

/// Looks up the worktree named `name` and begins the protocol that starts
/// its session: named like the worktree, in the worktree's directory, with the
/// plan `windows`. Fails with `NotFound`, which holds `name`, exactly when the
/// listing has no worktree of that name.
pub fn jump_to_worktree(worktrees: &Vec<Worktree>, name: &str, windows: &Vec<TmuxWindow>) -> (r:
    Result<SessionStart, GitError>)
    ensures
        match r {
            Ok(run) => {
                let i = first_named(worktree_views(worktrees@), name@, 0);
                &&& i < worktrees.len()
                &&& run.wf()
                &&& run.name@ == name@
                &&& run.path@ == worktrees[i]@.path
                &&& window_views(run.windows@) == window_views(windows@)
                &&& run.stage == Stage::Probe
                &&& run.warnings@.len() == 0
                &&& run.failure is None
            },
            Err(e) => first_named(worktree_views(worktrees@), name@, 0) == worktrees.len() && (
            e matches GitError::NotFound(n) && n@ == name@),
        },
{
    match find_worktree(worktrees, name) {
        Ok(worktree) => Ok(start_session(name, worktree.path.as_str(), windows)),
        Err(e) => Err(e),
    }
}

} // verus!
