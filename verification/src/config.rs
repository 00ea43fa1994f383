//! The window plan of a session and the todo store.

use vstd::prelude::*;
use crate::text::{clone_text, same_text};

verus! {

/// One window of a multiplexer session: its name and the command it starts
/// with, if any.
#[derive(Debug)]
pub struct TmuxWindow {
    pub name: String,
    pub command: Option<String>,
}

/// What a window is, as plain text.
pub struct TmuxWindowView {
    pub name: Seq<char>,
    pub command: Option<Seq<char>>,
}

impl View for TmuxWindow {
    type V = TmuxWindowView;

    open spec fn view(&self) -> TmuxWindowView {
        TmuxWindowView {
            name: self.name@,
            command: match self.command {
                Some(c) => Some(c@),
                None => None,
            },
        }
    }
}

impl Clone for TmuxWindow {
    fn clone(&self) -> (r: Self)
        ensures
            r@ == self@,
    {
        TmuxWindow { name: self.name.clone(), command: clone_text(&self.command) }
    }
}

/// The views of a sequence of windows.
pub open spec fn window_views(v: Seq<TmuxWindow>) -> Seq<TmuxWindowView> {
    v.map_values(|w: TmuxWindow| w@)
}

/// A copy of a window plan.
pub fn clone_windows(v: &Vec<TmuxWindow>) -> (r: Vec<TmuxWindow>)
    ensures
        window_views(r@) == window_views(v@),
{
    let mut out: Vec<TmuxWindow> = Vec::new();
    let mut i: usize = 0;
    while i < v.len()
        invariant
            i <= v.len(),
            out.len() == i,
            forall|j: int| 0 <= j < i ==> out[j]@ == v[j]@,
        decreases v.len() - i,
    {
        out.push(v[i].clone());
        i += 1;
    }
    assert(window_views(out@) =~= window_views(v@));
    out
}

/// The window plan: the windows of a new session, in order. The first one
/// takes the place of the session's initial window.
#[derive(Debug)]
pub struct Config {
    pub windows: Vec<TmuxWindow>,
}

/// What a window plan is, as plain text.
pub struct ConfigView {
    pub windows: Seq<TmuxWindowView>,
}

impl View for Config {
    type V = ConfigView;

    open spec fn view(&self) -> ConfigView {
        ConfigView { windows: window_views(self.windows@) }
    }
}

impl Clone for Config {
    fn clone(&self) -> (r: Self)
        ensures
            r@ == self@,
    {
        Config { windows: clone_windows(&self.windows) }
    }
}

/// A window with a start command, as plain text.
pub open spec fn window_with(name: &str, command: &str) -> TmuxWindowView {
    TmuxWindowView { name: name@, command: Some(command@) }
}

/// The plan that a first run writes down: three windows that start a command
/// and a plain shell.
pub open spec fn default_plan() -> Seq<TmuxWindowView> {
    seq![
        window_with("rails", "bin/rails s"),
        window_with("tailwind", "bin/rails tailwind:watch"),
        window_with("omnara", "omnara --dangerously-skip-permissions"),
        TmuxWindowView { name: "shell"@, command: None },
    ]
}

/// The default window plan.
pub fn default_windows() -> (r: Vec<TmuxWindow>)
    ensures
        window_views(r@) == default_plan(),
{
    let mut v: Vec<TmuxWindow> = Vec::new();
    v.push(TmuxWindow { name: "rails".to_string(), command: Some("bin/rails s".to_string()) });
    v.push(
        TmuxWindow {
            name: "tailwind".to_string(),
            command: Some("bin/rails tailwind:watch".to_string()),
        },
    );
    v.push(
        TmuxWindow {
            name: "omnara".to_string(),
            command: Some("omnara --dangerously-skip-permissions".to_string()),
        },
    );
    v.push(TmuxWindow { name: "shell".to_string(), command: None });
    assert(window_views(v@) =~= default_plan());
    v
}

impl Default for Config {
    fn default() -> (r: Self)
        ensures
            r@.windows == default_plan(),
    {
        Config { windows: default_windows() }
    }
}

/// Whether a tracked task is still open.
#[derive(Debug, Clone, Copy, PartialEq, Eq, Structural)]
pub enum TodoStatus {
    Pending,
    Done,
}

/// A tracked task. Its link to a worktree is the worktree's name, and may
/// outlive the worktree.
#[derive(Debug)]
pub struct Todo {
    pub description: String,
    pub status: TodoStatus,
    pub worktree: Option<String>,
}

/// What a todo is, as plain text.
pub struct TodoView {
    pub description: Seq<char>,
    pub status: TodoStatus,
    pub worktree: Option<Seq<char>>,
}

impl View for Todo {
    type V = TodoView;

    open spec fn view(&self) -> TodoView {
        TodoView {
            description: self.description@,
            status: self.status,
            worktree: match self.worktree {
                Some(w) => Some(w@),
                None => None,
            },
        }
    }
}

impl Clone for Todo {
    fn clone(&self) -> (r: Self)
        ensures
            r@ == self@,
    {
        Todo {
            description: self.description.clone(),
            status: self.status,
            worktree: clone_text(&self.worktree),
        }
    }
}

/// The views of a sequence of todos.
pub open spec fn todo_views(v: Seq<Todo>) -> Seq<TodoView> {
    v.map_values(|t: Todo| t@)
}

/// A copy of a todo list.
pub fn clone_todos(v: &Vec<Todo>) -> (r: Vec<Todo>)
    ensures
        todo_views(r@) == todo_views(v@),
{
    let mut out: Vec<Todo> = Vec::new();
    let mut i: usize = 0;
    while i < v.len()
        invariant
            i <= v.len(),
            out.len() == i,
            forall|j: int| 0 <= j < i ==> out[j]@ == v[j]@,
        decreases v.len() - i,
    {
        out.push(v[i].clone());
        i += 1;
    }
    assert(todo_views(out@) =~= todo_views(v@));
    out
}

/// Where the todo list is kept.
#[derive(Debug)]
pub enum StorageBackend {
    Local,
    Github { owner: String, repo: String, project_number: u32 },
}

/// What a storage backend is, as plain text.
pub enum StorageBackendView {
    Local,
    Github { owner: Seq<char>, repo: Seq<char>, project_number: u32 },
}

impl View for StorageBackend {
    type V = StorageBackendView;

    open spec fn view(&self) -> StorageBackendView {
        match self {
            StorageBackend::Local => StorageBackendView::Local,
            StorageBackend::Github { owner, repo, project_number } => StorageBackendView::Github {
                owner: owner@,
                repo: repo@,
                project_number: *project_number,
            },
        }
    }
}

impl Clone for StorageBackend {
    fn clone(&self) -> (r: Self)
        ensures
            r@ == self@,
    {
        match self {
            StorageBackend::Local => StorageBackend::Local,
            StorageBackend::Github { owner, repo, project_number } => StorageBackend::Github {
                owner: owner.clone(),
                repo: repo.clone(),
                project_number: *project_number,
            },
        }
    }
}

/// The project's settings together with its todo store: the todos, newest
/// first, and the window plan.
#[derive(Debug)]
pub struct AppConfig {
    pub name: String,
    pub worktree_naming: String,
    pub storage_backend: StorageBackend,
    pub todos: Vec<Todo>,
    pub windows: Vec<TmuxWindow>,
}

/// What the settings are, as plain text.
pub struct AppConfigView {
    pub name: Seq<char>,
    pub worktree_naming: Seq<char>,
    pub storage_backend: StorageBackendView,
    pub todos: Seq<TodoView>,
    pub windows: Seq<TmuxWindowView>,
}

impl View for AppConfig {
    type V = AppConfigView;

    open spec fn view(&self) -> AppConfigView {
        AppConfigView {
            name: self.name@,
            worktree_naming: self.worktree_naming@,
            storage_backend: self.storage_backend@,
            todos: todo_views(self.todos@),
            windows: window_views(self.windows@),
        }
    }
}

impl Clone for AppConfig {
    fn clone(&self) -> (r: Self)
        ensures
            r@ == self@,
    {
        AppConfig {
            name: self.name.clone(),
            worktree_naming: self.worktree_naming.clone(),
            storage_backend: self.storage_backend.clone(),
            todos: clone_todos(&self.todos),
            windows: clone_windows(&self.windows),
        }
    }
}

/// The settings of a project that has none yet: no name, no naming pattern,
/// todos kept locally, no todo, and the default window plan.
pub open spec fn default_settings() -> AppConfigView {
    AppConfigView {
        name: Seq::empty(),
        worktree_naming: Seq::empty(),
        storage_backend: StorageBackendView::Local,
        todos: Seq::empty(),
        windows: default_plan(),
    }
}

impl Default for AppConfig {
    fn default() -> (r: Self)
        ensures
            r@ == default_settings(),
    {
        let r = AppConfig {
            name: String::new(),
            worktree_naming: String::new(),
            storage_backend: StorageBackend::Local,
            todos: Vec::new(),
            windows: default_windows(),
        };
        assert(r@.todos =~= Seq::<TodoView>::empty());
        r
    }
}

/// A new todo: pending, and linked to the worktree `worktree`.
pub open spec fn pending_todo(description: Seq<char>, worktree: Seq<char>) -> TodoView {
    TodoView { description, status: TodoStatus::Pending, worktree: Some(worktree) }
}

/// The list after a todo was added: the new one first, then the others as
/// they were.
pub open spec fn added(todos: Seq<TodoView>, description: Seq<char>, worktree: Seq<char>) -> Seq<
    TodoView,
> {
    seq![pending_todo(description, worktree)] + todos
}

/// The first position at or after `from` whose todo is linked to `name`, or
/// the length of the list.
pub open spec fn first_link(todos: Seq<TodoView>, name: Seq<char>, from: int) -> int
    decreases todos.len() - from,
{
    if from < 0 || from >= todos.len() {
        todos.len() as int
    } else if todos[from].worktree == Some(name) {
        from
    } else {
        first_link(todos, name, from + 1)
    }
}

/// The list after the first todo linked to `name` was marked done; the list
/// itself where no todo is linked to `name`.
pub open spec fn marked_done(todos: Seq<TodoView>, name: Seq<char>) -> Seq<TodoView> {
    let i = first_link(todos, name, 0);
    if i < todos.len() {
        todos.update(i, TodoView { status: TodoStatus::Done, ..todos[i] })
    } else {
        todos
    }
}

impl AppConfig {
    /// Adds a pending todo for the worktree `worktree_name` at the head of
    /// the list.
    pub fn add_todo(&mut self, description: String, worktree_name: String)
        ensures
            final(self)@.todos == added(old(self)@.todos, description@, worktree_name@),
            final(self)@.todos.len() == old(self)@.todos.len() + 1,
            final(self)@.name == old(self)@.name,
            final(self)@.worktree_naming == old(self)@.worktree_naming,
            final(self)@.storage_backend == old(self)@.storage_backend,
            final(self)@.windows == old(self)@.windows,
    {
        let todo = Todo { description, status: TodoStatus::Pending, worktree: Some(worktree_name) };
        self.todos.insert(0, todo);
        assert(todo_views(self.todos@) =~= added(
            todo_views(old(self).todos@),
            description@,
            worktree_name@,
        ));
    }

    /// Marks the first todo that is linked to `worktree_name` as done. Where
    /// no todo is linked to it, nothing changes.
    pub fn mark_todo_done(&mut self, worktree_name: &str)
        ensures
            final(self)@.todos == marked_done(old(self)@.todos, worktree_name@),
            final(self)@.todos.len() == old(self)@.todos.len(),
            final(self)@.name == old(self)@.name,
            final(self)@.worktree_naming == old(self)@.worktree_naming,
            final(self)@.storage_backend == old(self)@.storage_backend,
            final(self)@.windows == old(self)@.windows,
    {
        let i = position_linked(&self.todos, worktree_name);
        if i < self.todos.len() {
            let ghost before = todo_views(self.todos@);
            let done = Todo {
                description: self.todos[i].description.clone(),
                status: TodoStatus::Done,
                worktree: clone_text(&self.todos[i].worktree),
            };
            assert(before[i as int] == self.todos[i as int]@);
            self.todos[i] = done;
            assert(todo_views(self.todos@) =~= before.update(
                i as int,
                TodoView { status: TodoStatus::Done, ..before[i as int] },
            ));
        }
    }
}

/// Where the first todo linked to `name` stands in a list; the length of the
/// list where none is.
pub fn position_linked(todos: &Vec<Todo>, name: &str) -> (r: usize)
    ensures
        r == first_link(todo_views(todos@), name@, 0),
        r <= todos.len(),
{
    let mut i: usize = 0;
    while i < todos.len()
        invariant
            i <= todos.len(),
            first_link(todo_views(todos@), name@, 0) == first_link(
                todo_views(todos@),
                name@,
                i as int,
            ),
        decreases todos.len() - i,
    {
        let hit = match &todos[i].worktree {
            Some(w) => same_text(w.as_str(), name),
            None => false,
        };
        proof {
            assert(todo_views(todos@)[i as int] == todos[i as int]@);
        }
        if hit {
            return i;
        }
        i += 1;
    }
    i
}

/// The list after each item of `items` was added in turn, the first item
/// first.
pub open spec fn added_all(todos: Seq<TodoView>, items: Seq<(Seq<char>, Seq<char>)>) -> Seq<
    TodoView,
>
    decreases items.len(),
{
    if items.len() == 0 {
        todos
    } else {
        added(added_all(todos, items.drop_last()), items.last().0, items.last().1)
    }
}

/// Adding todos one after another leaves them in the reverse of the order in
/// which they came, in front of what the list held before.
pub proof fn lemma_adds_come_out_reversed(
    todos: Seq<TodoView>,
    items: Seq<(Seq<char>, Seq<char>)>,
)
    ensures
        added_all(todos, items).len() == items.len() + todos.len(),
        forall|k: int|
            0 <= k < items.len() ==> #[trigger] added_all(todos, items)[k] == pending_todo(
                items[items.len() - 1 - k].0,
                items[items.len() - 1 - k].1,
            ),
        forall|k: int|
            items.len() <= k < items.len() + todos.len() ==> #[trigger] added_all(todos, items)[k]
                == todos[k - items.len()],
    decreases items.len(),
{
    if items.len() > 0 {
        lemma_adds_come_out_reversed(todos, items.drop_last());
    }
}

/// Marking a worktree's todo done changes nothing where no todo is linked to
/// that worktree.
pub proof fn lemma_mark_without_link_changes_nothing(todos: Seq<TodoView>, name: Seq<char>)
    requires
        forall|i: int| 0 <= i < todos.len() ==> (#[trigger] todos[i]).worktree != Some(name),
    ensures
        marked_done(todos, name) == todos,
{
    lemma_first_link(todos, name, 0);
}

/// Marking a worktree's todo done keeps the list's length, every description
/// and every link, and changes no status but that of the first todo linked to
/// the worktree, which is done afterwards.
pub proof fn lemma_mark_changes_one_status(todos: Seq<TodoView>, name: Seq<char>)
    ensures
        marked_done(todos, name).len() == todos.len(),
        forall|j: int|
            0 <= j < todos.len() ==> (#[trigger] marked_done(todos, name)[j]).description
                == todos[j].description && marked_done(todos, name)[j].worktree
                == todos[j].worktree,
        forall|j: int|
            0 <= j < todos.len() && j != first_link(todos, name, 0) ==> #[trigger] marked_done(
                todos,
                name,
            )[j] == todos[j],
        first_link(todos, name, 0) < todos.len() ==> marked_done(todos, name)[first_link(
            todos,
            name,
            0,
        )].status == TodoStatus::Done,
{
    lemma_first_link(todos, name, 0);
}

/// `first_link` lands on a todo linked to `name` or on the end, and passes no
/// such todo on the way.
pub proof fn lemma_first_link(todos: Seq<TodoView>, name: Seq<char>, from: int)
    requires
        0 <= from <= todos.len(),
    ensures
        from <= first_link(todos, name, from) <= todos.len(),
        first_link(todos, name, from) < todos.len() ==> todos[first_link(
            todos,
            name,
            from,
        )].worktree == Some(name),
        forall|j: int|
            from <= j < first_link(todos, name, from) ==> (#[trigger] todos[j]).worktree != Some(
                name,
            ),
    decreases todos.len() - from,
{
    if from < todos.len() && todos[from].worktree != Some(name) {
        lemma_first_link(todos, name, from + 1);
    }
}

} // verus!
