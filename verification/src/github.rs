//! Todos kept as the items of a project board of the remote issue tracker.
//!
//! Only reading is there: an item becomes a todo. Writing back is not: the
//! operations that would do it succeed and change nothing.

use vstd::prelude::*;
use crate::config::{todo_views, Todo, TodoStatus, TodoView};
use crate::process::Outcome;
use crate::text::{
    contains_text, lowercase, lowercased, opt_text, same_text, text_contains,
};

verus! {

/// A project board.
#[derive(Debug)]
pub struct GitHubProject {
    pub id: String,
    pub number: u32,
    pub title: String,
}

/// What an item of a board is about.
#[derive(Debug)]
pub struct ProjectItemContent {
    pub title: String,
    pub body: Option<String>,
}

/// The value that an item has in one field of its board.
#[derive(Debug)]
pub struct FieldValue {
    pub field: String,
    pub value: String,
}

/// An item of a board.
#[derive(Debug)]
pub struct ProjectItem {
    pub id: String,
    pub content: ProjectItemContent,
    pub field_values: Vec<FieldValue>,
}

/// Why an operation on the board failed.
#[derive(Debug)]
pub enum GitHubError {
    /// The tool could not be run.
    NotRun,
}

/// The board of one repository.
#[derive(Debug)]
pub struct GitHubClient {
    pub owner: String,
    pub repo: String,
    pub project_number: u32,
}

/// The value that a field of the board gives to a todo, from what the board
/// reports of the field: the name of the chosen option for a `Status`, and
/// the text for a `Worktree`. No other field gives a todo anything.
pub open spec fn value_in(field: Seq<char>, name: Option<Seq<char>>, text: Option<Seq<char>>) -> Option<
    Seq<char>,
> {
    if field == "Status"@ {
        name
    } else if field == "Worktree"@ {
        text
    } else {
        None
    }
}

/// The value that a field of the board gives to a todo, if it gives one.
pub fn field_value(field: &str, name: Option<String>, text: Option<String>) -> (r: Option<
    FieldValue,
>)
    ensures
        match r {
            Some(f) => f.field@ == field@ && value_in(field@, opt_text(name), opt_text(text))
                == Some(f.value@),
            None => value_in(field@, opt_text(name), opt_text(text)) is None,
        },
{
    let value = if same_text(field, "Status") {
        name
    } else if same_text(field, "Worktree") {
        text
    } else {
        None
    };
    match value {
        Some(value) => Some(FieldValue { field: field.to_string(), value }),
        None => None,
    }
}

/// Whether a status value says that the work is done: in lower case it holds
/// `done` or `complete`.
pub open spec fn says_done(value: Seq<char>) -> bool {
    contains_text(lowercase(value), "done"@) || contains_text(lowercase(value), "complete"@)
}

/// Whether a field value marks its item as done: it is a `Status` that says
/// so.
pub open spec fn marks_done(field: Seq<char>, value: Seq<char>) -> bool {
    field == "Status"@ && says_done(value)
}

/// Whether one of the first `n` field values marks the item as done.
pub open spec fn done_within(fields: Seq<FieldValue>, n: int) -> bool {
    exists|i: int| 0 <= i < n && i < fields.len() && marks_done(#[trigger] fields[i].field@, fields[i].value@)
}

/// The worktree that the first `n` field values name: the value of the last
/// `Worktree` field among them, if there is one.
pub open spec fn worktree_within(fields: Seq<FieldValue>, n: int) -> Option<Seq<char>>
    decreases n,
{
    if n <= 0 || n > fields.len() {
        None
    } else if fields[n - 1].field@ == "Worktree"@ {
        Some(fields[n - 1].value@)
    } else {
        worktree_within(fields, n - 1)
    }
}

/// The todo that an item stands for: described by the item's title, done where
/// a `Status` field says so and pending otherwise, and linked to the worktree
/// that its last `Worktree` field names.
pub open spec fn todo_of(item: ProjectItem) -> TodoView {
    TodoView {
        description: item.content.title@,
        status: if done_within(item.field_values@, item.field_values@.len() as int) {
            TodoStatus::Done
        } else {
            TodoStatus::Pending
        },
        worktree: worktree_within(item.field_values@, item.field_values@.len() as int),
    }
}

/// The title of an item: the one it was given, or `Untitled`.
pub open spec fn title_of(given: Option<Seq<char>>) -> Seq<char> {
    match given {
        Some(title) => title,
        None => "Untitled"@,
    }
}

/// What an item is about, from the title and the body it was given: an item
/// without title is called `Untitled`.
pub fn content_of(title: Option<String>, body: Option<String>) -> (r: ProjectItemContent)
    ensures
        r.title@ == title_of(opt_text(title)),
        r.body == body,
{
    let title = match title {
        Some(title) => title,
        None => "Untitled".to_string(),
    };
    ProjectItemContent { title, body }
}

/// Whether a status value says that the work is done.
pub fn status_is_done(value: &str) -> (r: bool)
    ensures
        r == says_done(value@),
{
    let lower = lowercased(value);
    text_contains(lower.as_str(), "done") || text_contains(lower.as_str(), "complete")
}

/// The todo that an item stands for.
pub fn todo_from_item(item: &ProjectItem) -> (r: Todo)
    ensures
        r@ == todo_of(*item),
{
    let mut status = TodoStatus::Pending;
    let mut worktree: Option<String> = None;
    let fields = &item.field_values;
    let mut i: usize = 0;
    while i < fields.len()
        invariant
            i <= fields.len(),
            (status == TodoStatus::Done) == done_within(fields@, i as int),
            status == TodoStatus::Done || status == TodoStatus::Pending,
            opt_text(worktree) == worktree_within(fields@, i as int),
        decreases fields.len() - i,
    {
        let f = &fields[i];
        if same_text(f.field.as_str(), "Status") {
            if status_is_done(f.value.as_str()) {
                status = TodoStatus::Done;
            }
        } else if same_text(f.field.as_str(), "Worktree") {
            worktree = Some(f.value.clone());
        }
        proof {
            reveal_strlit("Status");
            reveal_strlit("Worktree");
            assert("Status"@ != "Worktree"@) by {
                assert("Status"@.len() != "Worktree"@.len());
            }
            if done_within(fields@, i + 1) {
                let k = choose|k: int|
                    0 <= k < i + 1 && k < fields@.len() && marks_done(
                        #[trigger] fields@[k].field@,
                        fields@[k].value@,
                    );
                if k < i {
                    assert(done_within(fields@, i as int));
                }
            }
        }
        i += 1;
    }
    Todo { description: item.content.title.clone(), status, worktree }
}

/// The todos that the items of a board stand for, in the items' order.
pub open spec fn todos_of(items: Seq<ProjectItem>) -> Seq<TodoView> {
    items.map_values(|item: ProjectItem| todo_of(item))
}

impl GitHubClient {
    /// The board with the number `project_number` of the repository `repo` of
    /// `owner`.
    pub fn new(owner: String, repo: String, project_number: u32) -> (r: Self)
        ensures
            r.owner == owner,
            r.repo == repo,
            r.project_number == project_number,
    {
        GitHubClient { owner, repo, project_number }
    }

    /// Whether the tool is signed in: the status query ran and reported
    /// success. Fails where the query could not be started.
    pub fn is_authenticated(outcome: &Outcome) -> (r: Result<bool, GitHubError>)
        ensures
            match *outcome {
                Outcome::NotStarted(_) => r is Err,
                Outcome::Exited { success, .. } => r == Ok::<bool, GitHubError>(success),
            },
    {
        match outcome {
            Outcome::NotStarted(_) => Err(GitHubError::NotRun),
            Outcome::Exited { success, .. } => Ok(*success),
        }
    }

    /// Marks a worktree's item as done on the board. Not there yet: succeeds
    /// and changes nothing.
    pub fn mark_todo_done(&self, _worktree_name: &str) -> (r: Result<(), GitHubError>)
        ensures
            r is Ok,
    {
        Ok(())
    }

    /// The todos that the fetched items of the board stand for, in the items'
    /// order.
    pub fn sync_from_github(&self, items: &Vec<ProjectItem>) -> (r: Result<Vec<Todo>, GitHubError>)
        ensures
            r matches Ok(todos) && todo_views(todos@) == todos_of(items@),
    {
        let mut out: Vec<Todo> = Vec::new();
        let mut i: usize = 0;
        while i < items.len()
            invariant
                i <= items.len(),
                out.len() == i,
                forall|j: int| 0 <= j < i ==> (#[trigger] out[j])@ == todo_of(items[j]),
            decreases items.len() - i,
        {
            out.push(todo_from_item(&items[i]));
            i += 1;
        }
        assert(todo_views(out@) =~= todos_of(items@));
        Ok(out)
    }

    /// Writes the local todos to the board. Not there yet: succeeds and
    /// changes nothing.
    pub fn sync_to_github(&self, _todos: &[Todo]) -> (r: Result<(), GitHubError>)
        ensures
            r is Ok,
    {
        Ok(())
    }
}

} // verus!
