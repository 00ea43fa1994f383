//! The interactive list as a state machine.
//!
//! The state holds a snapshot of the todos and the worktrees, the focus, the
//! mode and the buffers of the creation form. An input event or the reply to a
//! command moves the state on and names the next command: what the caller has
//! to do before it reports back. Nothing here touches the terminal, the
//! repository or the multiplexer.
//!
//! The transitions are defined twice: as functions on `AppView`, the state as
//! plain mathematical values, and as methods on `App` that are proved to
//! compute them.

use vstd::prelude::*;
use crate::config::{
    added, first_link, lemma_mark_changes_one_status, marked_done, pending_todo, position_linked,
    AppConfig, AppConfigView,
};
use crate::git::{first_named, position_of, worktree_views, Worktree, WorktreeView};
use crate::layout::Rect;
use crate::text::{
    appended, drop_last_char, hyphenate, hyphenated, is_blank, is_blank_text, is_tight,
    lemma_trim_leaves_tight_text, lowercase, lowercased, opt_text, trim, trimmed, with_char,
    without_last,
};

verus! {

/// The mode of the interface.
#[derive(Debug, Clone, Copy, PartialEq, Eq, Structural)]
pub enum InputMode {
    Normal,
    CreatingWorktree,
    Help,
    ConfirmDelete,
}

/// A key press.
#[derive(Debug, Clone, Copy, PartialEq, Eq, Structural)]
pub enum Key {
    Char(char),
    Esc,
    Enter,
    Tab,
    Up,
    Down,
    Delete,
    Backspace,
    Other,
}

/// An input event: a key press, or a press of the left pointer button on a
/// cell.
#[derive(Debug, Clone, Copy, PartialEq, Eq, Structural)]
pub enum Event {
    Key(Key),
    Click { column: u16, row: u16 },
}

/// The command whose reply the state machine waits for, and what it serves.
#[derive(Debug, Clone, Copy, PartialEq, Eq, Structural)]
pub enum Pending {
    /// No command is under way.
    Idle,
    /// The status query that precedes the confirmation of a deletion.
    DirtyCheck,
    /// The deletion of a worktree.
    Delete,
    /// Saving the todos after a deletion.
    SaveAfterDelete,
    /// Ending the session of a deleted worktree.
    KillSession,
    /// Taking a new snapshot after a deletion.
    RefreshAfterDelete,
    /// The creation of a worktree.
    Create,
    /// Saving the todos after a creation.
    SaveAfterCreate,
    /// Taking a new snapshot after a creation.
    RefreshAfterCreate,
    /// Taking a new snapshot on request.
    Refresh,
}

/// What the caller has to do next.
#[derive(Debug)]
pub enum Command {
    /// Draw the state and wait for the next input event.
    Wait,
    /// Leave the interface.
    Quit,
    /// List the worktrees and load the todos; reply with the snapshot.
    Refresh,
    /// Ask whether the worktree at `path` has uncommitted changes; reply with
    /// the answer.
    CheckDirty { path: String },
    /// Delete the worktree at `path`, by force where `force` is set.
    DeleteWorktree { path: String, force: bool },
    /// Create the worktree `name` on the new branch `branch`.
    CreateWorktree { name: String, branch: String },
    /// Save these settings and todos. The state takes the change over once
    /// they are saved.
    Save { app_config: AppConfig },
    /// End the session `name`.
    KillSession { name: String },
    /// Leave the interface and start the session `name` in the directory
    /// `path`.
    StartSession { name: String, path: String },
}

/// A command as plain text.
pub enum CommandView {
    Wait,
    Quit,
    Refresh,
    CheckDirty { path: Seq<char> },
    DeleteWorktree { path: Seq<char>, force: bool },
    CreateWorktree { name: Seq<char>, branch: Seq<char> },
    Save { app_config: AppConfigView },
    KillSession { name: Seq<char> },
    StartSession { name: Seq<char>, path: Seq<char> },
}

impl View for Command {
    type V = CommandView;

    open spec fn view(&self) -> CommandView {
        match self {
            Command::Wait => CommandView::Wait,
            Command::Quit => CommandView::Quit,
            Command::Refresh => CommandView::Refresh,
            Command::CheckDirty { path } => CommandView::CheckDirty { path: path@ },
            Command::DeleteWorktree { path, force } => CommandView::DeleteWorktree {
                path: path@,
                force: *force,
            },
            Command::CreateWorktree { name, branch } => CommandView::CreateWorktree {
                name: name@,
                branch: branch@,
            },
            Command::Save { app_config } => CommandView::Save { app_config: app_config@ },
            Command::KillSession { name } => CommandView::KillSession { name: name@ },
            Command::StartSession { name, path } => CommandView::StartSession {
                name: name@,
                path: path@,
            },
        }
    }
}

/// What the caller reports of the command it was given.
#[derive(Debug)]
pub enum Reply {
    /// The command succeeded.
    Done,
    /// The answer to a status query.
    Dirty(bool),
    /// The worktrees and the settings with the todos, as they are now.
    Snapshot { worktrees: Vec<Worktree>, app_config: AppConfig },
    /// The command failed; holds its one-line message.
    Failed(String),
}

/// A reply as plain text.
pub enum ReplyView {
    Done,
    Dirty(bool),
    Snapshot { worktrees: Seq<WorktreeView>, app_config: AppConfigView },
    Failed(Seq<char>),
}

impl View for Reply {
    type V = ReplyView;

    open spec fn view(&self) -> ReplyView {
        match self {
            Reply::Done => ReplyView::Done,
            Reply::Dirty(d) => ReplyView::Dirty(*d),
            Reply::Snapshot { worktrees, app_config } => ReplyView::Snapshot {
                worktrees: worktree_views(worktrees@),
                app_config: app_config@,
            },
            Reply::Failed(message) => ReplyView::Failed(message@),
        }
    }
}

/// The state of the interface.
#[derive(Debug)]
pub struct App {
    /// The settings and the todos, newest first.
    pub app_config: AppConfig,
    /// The worktrees of the last listing.
    pub worktrees: Vec<Worktree>,
    /// The position in the list: the todo that has the focus, or that had it
    /// before the button took it.
    pub selected: Option<usize>,
    pub input_mode: InputMode,
    /// The description typed into the creation form.
    pub todo_input: String,
    /// The worktree name of the creation form, derived from the description.
    pub worktree_input: String,
    pub error_message: Option<String>,
    /// Where the list was drawn last.
    pub list_area: Rect,
    /// Where the action button was drawn last.
    pub button_area: Rect,
    /// Whether the action button has the focus.
    pub button_selected: bool,
    /// The worktree whose deletion waits for confirmation.
    pub worktree_to_delete: Option<Worktree>,
    /// Whether that worktree has uncommitted changes.
    pub delete_is_dirty: bool,
    pub pending: Pending,
    /// The session in which the interface runs, if it runs in one.
    pub current_session: Option<String>,
}

/// The state as plain mathematical values.
pub struct AppView {
    pub app_config: AppConfigView,
    pub worktrees: Seq<WorktreeView>,
    pub selected: Option<usize>,
    pub input_mode: InputMode,
    pub todo_input: Seq<char>,
    pub worktree_input: Seq<char>,
    pub error_message: Option<Seq<char>>,
    pub list_area: Rect,
    pub button_area: Rect,
    pub button_selected: bool,
    pub worktree_to_delete: Option<WorktreeView>,
    pub delete_is_dirty: bool,
    pub pending: Pending,
    pub current_session: Option<Seq<char>>,
}

/// The view of an optional worktree.
pub open spec fn opt_worktree(o: Option<Worktree>) -> Option<WorktreeView> {
    match o {
        Some(w) => Some(w@),
        None => None,
    }
}

impl View for App {
    type V = AppView;

    open spec fn view(&self) -> AppView {
        AppView {
            app_config: self.app_config@,
            worktrees: worktree_views(self.worktrees@),
            selected: self.selected,
            input_mode: self.input_mode,
            todo_input: self.todo_input@,
            worktree_input: self.worktree_input@,
            error_message: opt_text(self.error_message),
            list_area: self.list_area,
            button_area: self.button_area,
            button_selected: self.button_selected,
            worktree_to_delete: opt_worktree(self.worktree_to_delete),
            delete_is_dirty: self.delete_is_dirty,
            pending: self.pending,
            current_session: opt_text(self.current_session),
        }
    }
}

/// The worktree name that belongs to a description: the description in lower
/// case, its words joined by single hyphens. The empty description has the
/// empty name.
pub open spec fn derived_name(description: Seq<char>) -> Seq<char> {
    if description.len() == 0 {
        Seq::empty()
    } else {
        hyphenated(lowercase(description))
    }
}

/// A state is well formed when the position in the list is that of a todo
/// of the list.
pub open spec fn wf(v: AppView) -> bool {
    v.selected matches Some(i) ==> i < v.app_config.todos.len()
}

/// The todo that has the focus: the one at the position in the list, unless
/// the button has the focus. While the button has it, the position is only
/// remembered.
pub open spec fn focused_todo(v: AppView) -> Option<usize> {
    if v.button_selected {
        None
    } else {
        v.selected
    }
}

/// Whether the worktree name of the form is the one that belongs to its
/// description.
pub open spec fn name_is_derived(v: AppView) -> bool {
    v.worktree_input == derived_name(v.todo_input)
}

/// The state in which the interface opens: the focus on the first todo that is
/// linked to the worktree `initial`, else on the first todo, and nowhere where
/// the list is empty.
pub open spec fn opened(
    app_config: AppConfigView,
    worktrees: Seq<WorktreeView>,
    initial: Option<Seq<char>>,
    current_session: Option<Seq<char>>,
) -> AppView {
    let n = app_config.todos.len();
    let at = match initial {
        Some(name) => first_link(app_config.todos, name, 0),
        None => 0,
    };
    AppView {
        app_config,
        worktrees,
        selected: if n == 0 {
            None
        } else if at < n {
            Some(at as usize)
        } else {
            Some(0)
        },
        input_mode: InputMode::Normal,
        todo_input: Seq::empty(),
        worktree_input: Seq::empty(),
        error_message: None,
        list_area: Rect { x: 0, y: 0, width: 0, height: 0 },
        button_area: Rect { x: 0, y: 0, width: 0, height: 0 },
        button_selected: false,
        worktree_to_delete: None,
        delete_is_dirty: false,
        pending: Pending::Idle,
        current_session,
    }
}

/// The focus one step down the ring: from the button to the first todo, from
/// the last todo to the button, else to the next todo. On an empty list the
/// focus goes to the button and stays there.
pub open spec fn after_next(v: AppView) -> AppView {
    let n = v.app_config.todos.len();
    if v.button_selected {
        if n > 0 {
            AppView { button_selected: false, selected: Some(0), ..v }
        } else {
            v
        }
    } else {
        match v.selected {
            Some(i) => if i + 1 >= n {
                AppView { button_selected: true, selected: None, ..v }
            } else {
                AppView { selected: Some((i + 1) as usize), ..v }
            },
            None => if n == 0 {
                AppView { button_selected: true, ..v }
            } else {
                AppView { selected: Some(0), ..v }
            },
        }
    }
}

/// The focus one step up the ring: from the button to the last todo, from the
/// first todo to the button, else to the todo before. On an empty list the
/// focus goes to the button and stays there.
pub open spec fn after_previous(v: AppView) -> AppView {
    let n = v.app_config.todos.len();
    if v.button_selected {
        if n > 0 {
            AppView { button_selected: false, selected: Some((n - 1) as usize), ..v }
        } else {
            v
        }
    } else {
        match v.selected {
            Some(i) => if i == 0 {
                AppView { button_selected: true, selected: None, ..v }
            } else {
                AppView { selected: Some((i - 1) as usize), ..v }
            },
            None => if n == 0 {
                AppView { button_selected: true, ..v }
            } else {
                AppView { selected: Some(0), ..v }
            },
        }
    }
}

/// The focus swapped between the list and the button. The position in the
/// list stays as it is: from the list the focus goes to the button, and from
/// the button it goes back to the todo at the remembered position, or to the
/// first todo where none is remembered. On an empty list the focus stays on
/// the button.
pub open spec fn after_toggle(v: AppView) -> AppView {
    if v.button_selected {
        if v.app_config.todos.len() > 0 {
            AppView {
                button_selected: false,
                selected: if v.selected is None {
                    Some(0)
                } else {
                    v.selected
                },
                ..v
            }
        } else {
            v
        }
    } else {
        AppView { button_selected: true, ..v }
    }
}

/// The state with a new snapshot. The focus stays where it is if that todo is
/// still there and moves to the last todo if not; where nothing had the focus
/// it goes to the first todo.
pub open spec fn refreshed(
    v: AppView,
    worktrees: Seq<WorktreeView>,
    app_config: AppConfigView,
) -> AppView {
    let n = app_config.todos.len();
    AppView {
        worktrees,
        app_config,
        selected: match v.selected {
            Some(i) => if i < n {
                Some(i)
            } else if n > 0 {
                Some((n - 1) as usize)
            } else {
                None
            },
            None => if n > 0 && !v.button_selected {
                Some(0)
            } else {
                None
            },
        },
        ..v
    }
}

/// The state with the creation form open and empty, and no error.
pub open spec fn creating(v: AppView) -> AppView {
    AppView {
        input_mode: InputMode::CreatingWorktree,
        todo_input: Seq::empty(),
        worktree_input: Seq::empty(),
        error_message: None,
        ..v
    }
}

/// The state with the help screen opened, or closed where it was open.
pub open spec fn help_toggled(v: AppView) -> AppView {
    AppView {
        input_mode: if v.input_mode == InputMode::Help {
            InputMode::Normal
        } else {
            InputMode::Help
        },
        ..v
    }
}

/// The state with no deletion waiting for confirmation.
pub open spec fn delete_cancelled(v: AppView) -> AppView {
    AppView {
        input_mode: InputMode::Normal,
        worktree_to_delete: None,
        delete_is_dirty: false,
        ..v
    }
}

/// The state with the creation form closed and emptied, and no error.
pub open spec fn input_cancelled(v: AppView) -> AppView {
    AppView {
        input_mode: InputMode::Normal,
        todo_input: Seq::empty(),
        worktree_input: Seq::empty(),
        error_message: None,
        ..v
    }
}

/// The state with the description `description` in the form, and the worktree
/// name that belongs to it.
pub open spec fn described(v: AppView, description: Seq<char>) -> AppView {
    AppView { todo_input: description, worktree_input: derived_name(description), ..v }
}

/// Whether the form can be submitted: neither the description nor the worktree
/// name is blank.
pub open spec fn can_create(v: AppView) -> bool {
    !is_blank(v.todo_input) && !is_blank(v.worktree_input)
}

/// The state with the error message `message`.
pub open spec fn with_error(v: AppView, message: Seq<char>) -> AppView {
    AppView { error_message: Some(message), ..v }
}

/// The state without error message.
pub open spec fn cleared(v: AppView) -> AppView {
    AppView { error_message: None, ..v }
}

/// The state that waits for the reply to a command.
pub open spec fn waiting(v: AppView, pending: Pending) -> AppView {
    AppView { pending, ..v }
}

/// The state with other todos.
pub open spec fn with_todos(v: AppView, todos: Seq<crate::config::TodoView>) -> AppView {
    AppView { app_config: AppConfigView { todos, ..v.app_config }, ..v }
}

/// The todos once the todo of the form is recorded: a pending todo with the
/// trimmed description of the form, linked to the worktree of the form,
/// before the others.
pub open spec fn recorded(v: AppView) -> Seq<crate::config::TodoView> {
    added(v.app_config.todos, trimmed(v.todo_input), trimmed(v.worktree_input))
}

/// The todos once the todo of the worktree that waits for its deletion is
/// marked done; the todos as they are where no worktree waits.
pub open spec fn struck(v: AppView) -> Seq<crate::config::TodoView> {
    match v.worktree_to_delete {
        Some(w) => marked_done(v.app_config.todos, w.name),
        None => v.app_config.todos,
    }
}

/// The worktree that the focused todo is linked to, where a todo has the
/// focus, is linked to a worktree, and the listing has a worktree of that
/// name.
pub open spec fn target_of(v: AppView) -> Option<WorktreeView> {
    match focused_todo(v) {
        Some(i) => if i < v.app_config.todos.len() {
            match v.app_config.todos[i as int].worktree {
                Some(name) => {
                    let k = first_named(v.worktrees, name, 0);
                    if k < v.worktrees.len() {
                        Some(v.worktrees[k])
                    } else {
                        None
                    }
                },
                None => None,
            }
        } else {
            None
        },
        None => None,
    }
}

/// The todo that a press on the cell at `column` and `row` hits: the cell lies
/// in the list's area, and the row below the area's top border that it lies in
/// holds a todo. The border itself counts as the first row.
pub open spec fn clicked_todo(v: AppView, column: u16, row: u16) -> Option<usize> {
    let at = if row > v.list_area.y {
        row - v.list_area.y - 1
    } else {
        0
    };
    if v.list_area.holds(column, row) && at < v.app_config.todos.len() {
        Some(at as usize)
    } else {
        None
    }
}

/// The state with the focus on the last todo; on nothing where the list is
/// empty.
pub open spec fn last_selected(v: AppView) -> AppView {
    let n = v.app_config.todos.len();
    if n > 0 {
        AppView { selected: Some((n - 1) as usize), button_selected: false, ..v }
    } else {
        AppView { selected: None, ..v }
    }
}

/// What a submitted form leads to: an error message where the form cannot be
/// submitted, else the creation of the worktree named by the form, on a branch
/// of the same name.
pub open spec fn submitted(v: AppView) -> (AppView, CommandView) {
    if !can_create(v) {
        (with_error(v, "Description and worktree name cannot be empty"@), CommandView::Wait)
    } else {
        (
            waiting(v, Pending::Create),
            CommandView::CreateWorktree {
                name: trimmed(v.worktree_input),
                branch: trimmed(v.worktree_input),
            },
        )
    }
}

/// What the request to delete leads to: the status query of the focused
/// todo's worktree, and nothing where there is no such worktree.
pub open spec fn delete_requested(v: AppView) -> (AppView, CommandView) {
    match target_of(v) {
        Some(w) => (waiting(v, Pending::DirtyCheck), CommandView::CheckDirty { path: w.path }),
        None => (v, CommandView::Wait),
    }
}

/// What a confirmed deletion leads to: the deletion of the worktree that
/// waits for it, by force exactly when it has uncommitted changes.
pub open spec fn delete_confirmed(v: AppView) -> (AppView, CommandView) {
    match v.worktree_to_delete {
        Some(w) => (
            waiting(v, Pending::Delete),
            CommandView::DeleteWorktree { path: w.path, force: v.delete_is_dirty },
        ),
        None => (v, CommandView::Wait),
    }
}

/// What the activation of the focus leads to: the creation form where the
/// button has the focus, the session of the focused todo's worktree where
/// there is one, and nothing otherwise.
pub open spec fn activated(v: AppView) -> (AppView, CommandView) {
    if v.button_selected {
        (creating(v), CommandView::Wait)
    } else {
        match target_of(v) {
            Some(w) => (v, CommandView::StartSession { name: w.name, path: w.path }),
            None => (v, CommandView::Wait),
        }
    }
}

/// A key press in the normal mode.
pub open spec fn normal_key(v: AppView, key: Key) -> (AppView, CommandView) {
    if key == Key::Char('q') || key == Key::Esc {
        (v, CommandView::Quit)
    } else if key == Key::Char('j') || key == Key::Down {
        (after_next(v), CommandView::Wait)
    } else if key == Key::Char('k') || key == Key::Up {
        (after_previous(v), CommandView::Wait)
    } else if key == Key::Tab {
        (after_toggle(v), CommandView::Wait)
    } else if key == Key::Char('?') {
        (help_toggled(v), CommandView::Wait)
    } else if key == Key::Char('n') || key == Key::Char('c') {
        (creating(v), CommandView::Wait)
    } else if key == Key::Char('d') || key == Key::Delete {
        delete_requested(v)
    } else if key == Key::Char('r') {
        (waiting(v, Pending::Refresh), CommandView::Refresh)
    } else if key == Key::Enter {
        activated(v)
    } else {
        (v, CommandView::Wait)
    }
}

/// A key press on the help screen.
pub open spec fn help_key(v: AppView, key: Key) -> (AppView, CommandView) {
    if key == Key::Char('q') || key == Key::Esc || key == Key::Char('?') {
        (help_toggled(v), CommandView::Wait)
    } else {
        (v, CommandView::Wait)
    }
}

/// A key press while a deletion waits for confirmation.
pub open spec fn confirm_key(v: AppView, key: Key) -> (AppView, CommandView) {
    if key == Key::Char('y') || key == Key::Char('Y') || key == Key::Enter {
        delete_confirmed(v)
    } else if key == Key::Char('n') || key == Key::Char('N') || key == Key::Esc {
        (delete_cancelled(v), CommandView::Wait)
    } else {
        (v, CommandView::Wait)
    }
}

/// A key press in the creation form.
pub open spec fn creating_key(v: AppView, key: Key) -> (AppView, CommandView) {
    match key {
        Key::Enter => submitted(v),
        Key::Esc => (input_cancelled(v), CommandView::Wait),
        Key::Char(c) => (described(v, v.todo_input.push(c)), CommandView::Wait),
        Key::Backspace => (described(v, without_last(v.todo_input)), CommandView::Wait),
        _ => (v, CommandView::Wait),
    }
}

/// A press of the pointer button in the normal mode: a todo that is hit gets
/// the focus, and a hit on the button opens the creation form.
pub open spec fn normal_click(v: AppView, column: u16, row: u16) -> (AppView, CommandView) {
    let focused = match clicked_todo(v, column, row) {
        Some(i) => AppView { selected: Some(i), button_selected: false, ..v },
        None => v,
    };
    if v.button_area.holds(column, row) {
        (creating(focused), CommandView::Wait)
    } else {
        (focused, CommandView::Wait)
    }
}

/// The state after an input event, and the command that it leads to. While
/// the reply to a command is awaited, input changes nothing. Otherwise a key
/// press clears the error message and acts by the mode, and a press of the
/// pointer button counts in the normal mode only, where it does the same.
pub open spec fn after_event(v: AppView, event: Event) -> (AppView, CommandView) {
    if v.pending != Pending::Idle {
        (v, CommandView::Wait)
    } else {
        match event {
            Event::Key(key) => match v.input_mode {
                InputMode::Normal => normal_key(cleared(v), key),
                InputMode::Help => help_key(cleared(v), key),
                InputMode::ConfirmDelete => confirm_key(cleared(v), key),
                InputMode::CreatingWorktree => creating_key(cleared(v), key),
            },
            Event::Click { column, row } => if v.input_mode == InputMode::Normal {
                normal_click(cleared(v), column, row)
            } else {
                (v, CommandView::Wait)
            },
        }
    }
}

/// The state after the reply to the status query: the worktree of the focused
/// todo waits for the confirmation of its deletion.
pub open spec fn dirty_replied(v: AppView, reply: ReplyView) -> (AppView, CommandView) {
    let idle = waiting(v, Pending::Idle);
    match reply {
        ReplyView::Dirty(dirty) => match target_of(v) {
            Some(w) => (
                AppView {
                    worktree_to_delete: Some(w),
                    delete_is_dirty: dirty,
                    input_mode: InputMode::ConfirmDelete,
                    ..idle
                },
                CommandView::Wait,
            ),
            None => (idle, CommandView::Wait),
        },
        ReplyView::Failed(message) => (with_error(idle, message), CommandView::Wait),
        _ => (idle, CommandView::Wait),
    }
}

/// The state after the reply to a deletion: the todos are to be saved with
/// the todo of the deleted worktree marked done, and the state keeps its own
/// todos as they are until that is done; a failure is reported and ends the
/// matter.
pub open spec fn delete_replied(v: AppView, reply: ReplyView) -> (AppView, CommandView) {
    let idle = waiting(v, Pending::Idle);
    match reply {
        ReplyView::Done => match v.worktree_to_delete {
            Some(w) => (
                waiting(v, Pending::SaveAfterDelete),
                CommandView::Save { app_config: with_todos(v, struck(v)).app_config },
            ),
            None => (idle, CommandView::Wait),
        },
        ReplyView::Failed(message) => (
            delete_cancelled(with_error(idle, "Failed to delete worktree: "@ + message)),
            CommandView::Wait,
        ),
        _ => (idle, CommandView::Wait),
    }
}

/// The state after the reply to saving on a deletion. Once the todos are
/// saved, the todo of the deleted worktree is marked done in the state too;
/// then the session of the deleted worktree is to be ended where the
/// interface runs in it, and a new snapshot is to be taken otherwise. Where
/// saving failed, the todos stay as they were before the deletion.
pub open spec fn delete_saved(v: AppView, reply: ReplyView) -> (AppView, CommandView) {
    let idle = waiting(v, Pending::Idle);
    let saved = with_todos(v, struck(v));
    match reply {
        ReplyView::Done => match v.worktree_to_delete {
            Some(w) => if v.current_session == Some(w.name) {
                (waiting(saved, Pending::KillSession), CommandView::KillSession { name: w.name })
            } else {
                (waiting(saved, Pending::RefreshAfterDelete), CommandView::Refresh)
            },
            None => (waiting(saved, Pending::RefreshAfterDelete), CommandView::Refresh),
        },
        ReplyView::Failed(message) => (
            delete_cancelled(with_error(idle, message)),
            CommandView::Wait,
        ),
        _ => (idle, CommandView::Wait),
    }
}

/// The state after the snapshot that follows a deletion.
pub open spec fn delete_refreshed(v: AppView, reply: ReplyView) -> (AppView, CommandView) {
    let idle = waiting(v, Pending::Idle);
    match reply {
        ReplyView::Snapshot { worktrees, app_config } => (
            delete_cancelled(refreshed(idle, worktrees, app_config)),
            CommandView::Wait,
        ),
        ReplyView::Failed(message) => (
            delete_cancelled(with_error(idle, message)),
            CommandView::Wait,
        ),
        _ => (delete_cancelled(idle), CommandView::Wait),
    }
}

/// The state after the reply to a creation: the todos are to be saved with a
/// pending todo for the new worktree before the others, and the state keeps
/// its own todos as they are until that is done; a failure is reported and
/// leaves the form open.
pub open spec fn create_replied(v: AppView, reply: ReplyView) -> (AppView, CommandView) {
    let idle = waiting(v, Pending::Idle);
    match reply {
        ReplyView::Done => (
            waiting(v, Pending::SaveAfterCreate),
            CommandView::Save { app_config: with_todos(v, recorded(v)).app_config },
        ),
        ReplyView::Failed(message) => (
            with_error(idle, "Failed to create worktree: "@ + message),
            CommandView::Wait,
        ),
        _ => (idle, CommandView::Wait),
    }
}

/// The state after the reply to saving on a creation. Once the todos are
/// saved, the new todo stands first in the state's list too, and a new
/// snapshot is to be taken. Where saving failed, the form is closed and the
/// todos stay as they were before the creation: the new todo is recorded
/// nowhere.
pub open spec fn create_saved(v: AppView, reply: ReplyView) -> (AppView, CommandView) {
    let idle = waiting(v, Pending::Idle);
    match reply {
        ReplyView::Done => (
            waiting(with_todos(v, recorded(v)), Pending::RefreshAfterCreate),
            CommandView::Refresh,
        ),
        ReplyView::Failed(message) => (
            with_error(input_cancelled(idle), message),
            CommandView::Wait,
        ),
        _ => (idle, CommandView::Wait),
    }
}

/// The state after the snapshot that follows a creation: the form is closed
/// and the last todo has the focus.
pub open spec fn create_refreshed(v: AppView, reply: ReplyView) -> (AppView, CommandView) {
    let idle = waiting(v, Pending::Idle);
    match reply {
        ReplyView::Snapshot { worktrees, app_config } => (
            last_selected(input_cancelled(refreshed(idle, worktrees, app_config))),
            CommandView::Wait,
        ),
        ReplyView::Failed(message) => (
            with_error(input_cancelled(idle), message),
            CommandView::Wait,
        ),
        _ => (input_cancelled(idle), CommandView::Wait),
    }
}

/// The state after the snapshot that was asked for.
pub open spec fn refresh_replied(v: AppView, reply: ReplyView) -> (AppView, CommandView) {
    let idle = waiting(v, Pending::Idle);
    match reply {
        ReplyView::Snapshot { worktrees, app_config } => (
            refreshed(idle, worktrees, app_config),
            CommandView::Wait,
        ),
        ReplyView::Failed(message) => (with_error(idle, message), CommandView::Wait),
        _ => (idle, CommandView::Wait),
    }
}

/// The state after the reply to the command that was under way, and the
/// command that follows. A session that could not be ended holds nothing up. A
/// reply that nothing waits for changes nothing.
pub open spec fn after_reply(v: AppView, reply: ReplyView) -> (AppView, CommandView) {
    match v.pending {
        Pending::Idle => (v, CommandView::Wait),
        Pending::DirtyCheck => dirty_replied(v, reply),
        Pending::Delete => delete_replied(v, reply),
        Pending::SaveAfterDelete => delete_saved(v, reply),
        Pending::KillSession => (waiting(v, Pending::RefreshAfterDelete), CommandView::Refresh),
        Pending::RefreshAfterDelete => delete_refreshed(v, reply),
        Pending::Create => create_replied(v, reply),
        Pending::SaveAfterCreate => create_saved(v, reply),
        Pending::RefreshAfterCreate => create_refreshed(v, reply),
        Pending::Refresh => refresh_replied(v, reply),
    }
}

/// The ends of the focus ring. On a list with todos, a step down from the
/// last todo puts the focus on the button and on no todo, and a step up from
/// the button puts it on the last todo. On an empty list a step either way
/// leaves the focus on the button, wherever it was.
pub proof fn lemma_focus_ring_boundaries(v: AppView)
    requires
        wf(v),
    ensures
        v.selected matches Some(i) && i + 1 == v.app_config.todos.len() && !v.button_selected
            ==> after_next(v).button_selected && after_next(v).selected is None,
        v.button_selected && v.app_config.todos.len() > 0 ==> !after_previous(v).button_selected
            && after_previous(v).selected == Some((v.app_config.todos.len() - 1) as usize),
        v.app_config.todos.len() == 0 ==> after_next(v).button_selected && after_next(
            v,
        ).selected is None && after_previous(v).button_selected && after_previous(v).selected
            is None,
        wf(after_next(v)),
        wf(after_previous(v)),
        wf(after_toggle(v)),
{
}

/// The worktree name of the form is never typed: in the state in which the
/// interface opens it is the one that belongs to the description, and
/// whatever event or reply comes, it stays so.
pub proof fn lemma_name_stays_derived(
    app_config: AppConfigView,
    worktrees: Seq<WorktreeView>,
    initial: Option<Seq<char>>,
    current_session: Option<Seq<char>>,
    v: AppView,
    event: Event,
    reply: ReplyView,
)
    requires
        name_is_derived(v),
    ensures
        name_is_derived(opened(app_config, worktrees, initial, current_session)),
        name_is_derived(after_event(v, event).0),
        name_is_derived(after_reply(v, reply).0),
{
}

/// The toggle keeps the position in the list. From a todo it puts the focus
/// on the button, where no todo has the focus, and a second toggle puts it
/// back on the same todo. From the button it goes to the remembered todo, and
/// a second toggle puts it back on the button.
pub proof fn lemma_toggle_keeps_position(v: AppView)
    requires
        wf(v),
    ensures
        after_toggle(v).selected == v.selected || (v.button_selected && v.selected is None),
        !v.button_selected ==> after_toggle(v).button_selected && focused_todo(after_toggle(v))
            is None,
        !v.button_selected && v.selected is Some ==> after_toggle(after_toggle(v)) == v,
        v.button_selected && v.selected is Some ==> focused_todo(after_toggle(v)) == v.selected
            && after_toggle(after_toggle(v)) == v,
{
}

/// Whatever event or reply comes, the position in the list stays that of a
/// todo of the list.
pub proof fn lemma_transitions_keep_wf(v: AppView, event: Event, reply: ReplyView)
    requires
        wf(v),
    ensures
        wf(after_event(v, event).0),
        wf(after_reply(v, reply).0),
{
    match v.pending {
        Pending::SaveAfterDelete => {
            if let Some(w) = v.worktree_to_delete {
                lemma_mark_changes_one_status(v.app_config.todos, w.name);
            }
        },
        _ => {},
    }
}

/// Where saving fails, nothing is recorded: the state holds the settings and
/// the todos as they were before the creation or the deletion, and the error
/// message says why.
pub proof fn lemma_failed_save_records_nothing(v: AppView, message: Seq<char>)
    requires
        v.pending == Pending::SaveAfterCreate || v.pending == Pending::SaveAfterDelete,
    ensures
        after_reply(v, ReplyView::Failed(message)).0.app_config == v.app_config,
        after_reply(v, ReplyView::Failed(message)).0.error_message == Some(message),
        after_reply(v, ReplyView::Failed(message)).0.input_mode == InputMode::Normal,
        after_reply(v, ReplyView::Failed(message)).0.pending == Pending::Idle,
        after_reply(v, ReplyView::Failed(message)).1 == CommandView::Wait,
{
}

/// A submitted form whose worktree is created and whose todos are saved puts
/// its todo before all others: pending, described by the trimmed description
/// and linked to the trimmed worktree name, under which the worktree was
/// asked for. What is saved is what the state holds afterwards.
pub proof fn lemma_creation_records_the_todo(v: AppView)
    requires
        v.pending == Pending::Idle,
        v.input_mode == InputMode::CreatingWorktree,
        can_create(v),
    ensures
        ({
            let (asked, create) = after_event(v, Event::Key(Key::Enter));
            let (made, save) = after_reply(asked, ReplyView::Done);
            let (saved, refresh) = after_reply(made, ReplyView::Done);
            let first = pending_todo(trimmed(v.todo_input), trimmed(v.worktree_input));
            &&& create == CommandView::CreateWorktree {
                name: trimmed(v.worktree_input),
                branch: trimmed(v.worktree_input),
            }
            &&& made.app_config == v.app_config
            &&& save == CommandView::Save { app_config: saved.app_config }
            &&& saved.app_config.todos == seq![first] + v.app_config.todos
            &&& saved.app_config.todos.len() == v.app_config.todos.len() + 1
            &&& saved.app_config.todos[0] == first
            &&& forall|i: int|
                0 <= i < v.app_config.todos.len() ==> saved.app_config.todos[i + 1]
                    == v.app_config.todos[i]
            &&& refresh == CommandView::Refresh
        }),
{
}

/// A form whose two texts are tight is recorded as it was typed: once its
/// worktree is created and the todos are saved, the first todo is pending,
/// has the description of the form and is linked to the worktree name of the
/// form, and the todos that were there follow it in their order.
pub proof fn lemma_tight_form_is_recorded_as_typed(v: AppView)
    requires
        v.pending == Pending::Idle,
        v.input_mode == InputMode::CreatingWorktree,
        is_tight(v.todo_input),
        is_tight(v.worktree_input),
    ensures
        ({
            let (asked, create) = after_event(v, Event::Key(Key::Enter));
            let (made, save) = after_reply(asked, ReplyView::Done);
            let (saved, refresh) = after_reply(made, ReplyView::Done);
            &&& create == CommandView::CreateWorktree {
                name: v.worktree_input,
                branch: v.worktree_input,
            }
            &&& save == CommandView::Save { app_config: saved.app_config }
            &&& saved.app_config.todos == seq![pending_todo(v.todo_input, v.worktree_input)]
                + v.app_config.todos
        }),
{
    lemma_trim_leaves_tight_text(v.todo_input);
    lemma_trim_leaves_tight_text(v.worktree_input);
}

/// While the button has the focus, a delete key asks for nothing and the
/// enter key opens the creation form.
pub proof fn lemma_button_focus_has_no_target(v: AppView)
    requires
        wf(v),
        v.button_selected,
    ensures
        target_of(v) is None,
        delete_requested(v) == (v, CommandView::Wait),
        activated(v) == (creating(v), CommandView::Wait),
{
}

/// A todo whose worktree is gone from the listing is not actionable: neither
/// a deletion nor a session is asked for it.
pub proof fn lemma_dangling_link_is_not_actionable(v: AppView)
    requires
        wf(v),
        !v.button_selected,
        v.selected matches Some(i) && (v.app_config.todos[i as int].worktree matches Some(name)
            ==> forall|k: int| 0 <= k < v.worktrees.len() ==> (#[trigger] v.worktrees[k]).name
            != name),
    ensures
        delete_requested(v) == (v, CommandView::Wait),
        activated(v) == (v, CommandView::Wait),
{
    let i = v.selected->0;
    match v.app_config.todos[i as int].worktree {
        Some(name) => {
            crate::git::lemma_first_named(v.worktrees, name, 0);
        },
        None => {},
    }
}

impl App {
    /// The state in which the interface opens, for the settings and todos
    /// `app_config`, the listing `worktrees`, the worktree `initial_worktree`
    /// in which the caller stands and the session `current_session` in which
    /// it runs.
    pub fn new(
        app_config: AppConfig,
        worktrees: Vec<Worktree>,
        initial_worktree: Option<String>,
        current_session: Option<String>,
    ) -> (r: App)
        ensures
            r@ == opened(
                app_config@,
                worktree_views(worktrees@),
                opt_text(initial_worktree),
                opt_text(current_session),
            ),
            wf(r@),
    {
        let n = app_config.todos.len();
        let at = match &initial_worktree {
            Some(name) => position_linked(&app_config.todos, name.as_str()),
            None => 0,
        };
        let selected = if n == 0 {
            None
        } else if at < n {
            Some(at)
        } else {
            Some(0)
        };
        App {
            app_config,
            worktrees,
            selected,
            input_mode: InputMode::Normal,
            todo_input: String::new(),
            worktree_input: String::new(),
            error_message: None,
            list_area: Rect::empty(),
            button_area: Rect::empty(),
            button_selected: false,
            worktree_to_delete: None,
            delete_is_dirty: false,
            pending: Pending::Idle,
            current_session,
        }
    }

    /// Whether the state is well formed. Every state that `new` makes and that
    /// the transitions lead to is.
    pub fn is_well_formed(&self) -> (r: bool)
        ensures
            r == wf(self@),
    {
        match self.selected {
            Some(i) => i < self.app_config.todos.len(),
            None => true,
        }
    }

    /// The todo that has the focus, if one has.
    pub fn focused(&self) -> (r: Option<usize>)
        ensures
            r == focused_todo(self@),
    {
        if self.button_selected {
            None
        } else {
            self.selected
        }
    }

    /// The todo that a press on the cell at column `x` and row `y` hits, if
    /// it hits one.
    pub fn handle_click(&self, x: u16, y: u16) -> (r: Option<usize>)
        ensures
            r == clicked_todo(self@, x, y),
    {
        if self.list_area.contains(x, y) {
            let at: u16 = if y > self.list_area.y {
                y - self.list_area.y - 1
            } else {
                0
            };
            let index = at as usize;
            if index < self.app_config.todos.len() {
                return Some(index);
            }
        }
        None
    }

    /// Whether a press on the cell at column `x` and row `y` hits the action
    /// button.
    pub fn is_new_button_clicked(&self, x: u16, y: u16) -> (r: bool)
        ensures
            r == self@.button_area.holds(x, y),
    {
        self.button_area.contains(x, y)
    }

    /// The worktree name that belongs to a description.
    pub fn dasherize(input: &str) -> (r: String)
        ensures
            r@ == derived_name(input@),
    {
        if input.is_empty() {
            return String::new();
        }
        let lower = lowercased(input);
        hyphenate(lower.as_str())
    }

    /// Moves the focus one step down the ring.
    pub fn next(&mut self)
        requires
            wf(old(self)@),
        ensures
            final(self)@ == after_next(old(self)@),
            wf(final(self)@),
    {
        let n = self.app_config.todos.len();
        if self.button_selected {
            if n > 0 {
                self.button_selected = false;
                self.selected = Some(0);
            }
        } else {
            match self.selected {
                Some(i) => {
                    if i + 1 >= n {
                        self.button_selected = true;
                        self.selected = None;
                    } else {
                        self.selected = Some(i + 1);
                    }
                },
                None => {
                    if n == 0 {
                        self.button_selected = true;
                    } else {
                        self.selected = Some(0);
                    }
                },
            }
        }
    }

    /// Moves the focus one step up the ring.
    pub fn previous(&mut self)
        requires
            wf(old(self)@),
        ensures
            final(self)@ == after_previous(old(self)@),
            wf(final(self)@),
    {
        let n = self.app_config.todos.len();
        if self.button_selected {
            if n > 0 {
                self.button_selected = false;
                self.selected = Some(n - 1);
            }
        } else {
            match self.selected {
                Some(i) => {
                    if i == 0 {
                        self.button_selected = true;
                        self.selected = None;
                    } else {
                        self.selected = Some(i - 1);
                    }
                },
                None => {
                    if n == 0 {
                        self.button_selected = true;
                    } else {
                        self.selected = Some(0);
                    }
                },
            }
        }
    }

    /// Swaps the focus between the list and the button.
    pub fn toggle_button_focus(&mut self)
        requires
            wf(old(self)@),
        ensures
            final(self)@ == after_toggle(old(self)@),
            wf(final(self)@),
    {
        if self.button_selected {
            if self.app_config.todos.len() > 0 {
                self.button_selected = false;
                if self.selected.is_none() {
                    self.selected = Some(0);
                }
            }
        } else {
            self.button_selected = true;
        }
    }

    /// Takes a new snapshot of the worktrees and of the settings with the
    /// todos.
    pub fn refresh_worktrees(&mut self, worktrees: Vec<Worktree>, app_config: AppConfig)
        requires
            wf(old(self)@),
        ensures
            final(self)@ == refreshed(old(self)@, worktree_views(worktrees@), app_config@),
            wf(final(self)@),
    {
        let n = app_config.todos.len();
        self.worktrees = worktrees;
        self.app_config = app_config;
        match self.selected {
            Some(i) => {
                if i >= n {
                    self.selected = if n > 0 {
                        Some(n - 1)
                    } else {
                        None
                    };
                }
            },
            None => {
                if n > 0 && !self.button_selected {
                    self.selected = Some(0);
                }
            },
        }
    }

    /// Opens the creation form, empty.
    pub fn start_create_worktree(&mut self)
        requires
            wf(old(self)@),
        ensures
            final(self)@ == creating(old(self)@),
            wf(final(self)@),
    {
        self.input_mode = InputMode::CreatingWorktree;
        self.todo_input = String::new();
        self.worktree_input = String::new();
        self.error_message = None;
    }

    /// Opens the help screen, or closes it where it is open.
    pub fn toggle_help(&mut self)
        requires
            wf(old(self)@),
        ensures
            final(self)@ == help_toggled(old(self)@),
            wf(final(self)@),
    {
        self.input_mode = match self.input_mode {
            InputMode::Help => InputMode::Normal,
            _ => InputMode::Help,
        };
    }

    /// The worktree that the focused todo is linked to, if there is one.
    pub fn target(&self) -> (r: Option<Worktree>)
        ensures
            opt_worktree(r) == target_of(self@),
    {
        if self.button_selected {
            return None;
        }
        match self.selected {
            Some(i) => {
                if i < self.app_config.todos.len() {
                    assert(self@.app_config.todos[i as int] == self.app_config.todos[i as int]@);
                    match &self.app_config.todos[i].worktree {
                        Some(name) => match position_of(&self.worktrees, name.as_str()) {
                            Some(k) => {
                                assert(self@.worktrees[k as int] == self.worktrees[k as int]@);
                                Some(self.worktrees[k].clone())
                            },
                            None => None,
                        },
                        None => None,
                    }
                } else {
                    None
                }
            },
            None => None,
        }
    }

    /// Asks for the deletion of the focused todo's worktree.
    pub fn start_delete_worktree(&mut self) -> (c: Command)
        requires
            wf(old(self)@),
        ensures
            (final(self)@, c@) == delete_requested(old(self)@),
            wf(final(self)@),
    {
        match self.target() {
            Some(w) => {
                self.pending = Pending::DirtyCheck;
                Command::CheckDirty { path: w.path }
            },
            None => Command::Wait,
        }
    }

    /// Confirms the deletion that waits for it.
    pub fn confirm_delete(&mut self) -> (c: Command)
        requires
            wf(old(self)@),
        ensures
            (final(self)@, c@) == delete_confirmed(old(self)@),
            wf(final(self)@),
    {
        let path = match &self.worktree_to_delete {
            Some(w) => Some(w.path.clone()),
            None => None,
        };
        match path {
            Some(path) => {
                self.pending = Pending::Delete;
                Command::DeleteWorktree { path, force: self.delete_is_dirty }
            },
            None => Command::Wait,
        }
    }

    /// Drops the deletion that waits for confirmation.
    pub fn cancel_delete(&mut self)
        requires
            wf(old(self)@),
        ensures
            final(self)@ == delete_cancelled(old(self)@),
            wf(final(self)@),
    {
        self.input_mode = InputMode::Normal;
        self.worktree_to_delete = None;
        self.delete_is_dirty = false;
    }

    /// Whether the form can be submitted.
    pub fn can_create_worktree(&self) -> (r: bool)
        ensures
            r == can_create(self@),
    {
        !is_blank_text(self.todo_input.as_str()) && !is_blank_text(self.worktree_input.as_str())
    }

    /// Closes the creation form and empties it.
    pub fn cancel_input(&mut self)
        requires
            wf(old(self)@),
        ensures
            final(self)@ == input_cancelled(old(self)@),
            wf(final(self)@),
    {
        self.input_mode = InputMode::Normal;
        self.todo_input = String::new();
        self.worktree_input = String::new();
        self.error_message = None;
    }

    /// Submits the creation form.
    pub fn submit_input(&mut self) -> (c: Command)
        requires
            wf(old(self)@),
        ensures
            (final(self)@, c@) == submitted(old(self)@),
            wf(final(self)@),
    {
        if !self.can_create_worktree() {
            self.error_message = Some(
                "Description and worktree name cannot be empty".to_string(),
            );
            return Command::Wait;
        }
        let name = trim(self.worktree_input.as_str());
        let branch = name.clone();
        self.pending = Pending::Create;
        Command::CreateWorktree { name, branch }
    }

    /// Puts `description` into the form, with the worktree name that belongs
    /// to it.
    pub fn describe(&mut self, description: String)
        requires
            wf(old(self)@),
        ensures
            final(self)@ == described(old(self)@, description@),
            wf(final(self)@),
    {
        self.todo_input = description;
        self.update_worktree_name();
    }

    /// Derives the worktree name of the form from its description.
    pub fn update_worktree_name(&mut self)
        ensures
            final(self)@ == described(old(self)@, old(self)@.todo_input),
    {
        self.worktree_input = App::dasherize(self.todo_input.as_str());
    }

    /// Sets the error message.
    fn fail(&mut self, message: String)
        ensures
            final(self)@ == with_error(old(self)@, message@),
    {
        self.error_message = Some(message);
    }

    /// Takes a key press in the normal mode.
    fn on_normal_key(&mut self, key: Key) -> (c: Command)
        requires
            wf(old(self)@),
        ensures
            (final(self)@, c@) == normal_key(old(self)@, key),
            wf(final(self)@),
    {
        match key {
            Key::Char('q') | Key::Esc => Command::Quit,
            Key::Char('j') | Key::Down => {
                self.next();
                Command::Wait
            },
            Key::Char('k') | Key::Up => {
                self.previous();
                Command::Wait
            },
            Key::Tab => {
                self.toggle_button_focus();
                Command::Wait
            },
            Key::Char('?') => {
                self.toggle_help();
                Command::Wait
            },
            Key::Char('n') | Key::Char('c') => {
                self.start_create_worktree();
                Command::Wait
            },
            Key::Char('d') | Key::Delete => self.start_delete_worktree(),
            Key::Char('r') => {
                self.pending = Pending::Refresh;
                Command::Refresh
            },
            Key::Enter => {
                if self.button_selected {
                    self.start_create_worktree();
                    Command::Wait
                } else {
                    match self.target() {
                        Some(w) => Command::StartSession { name: w.name, path: w.path },
                        None => Command::Wait,
                    }
                }
            },
            _ => Command::Wait,
        }
    }

    /// Takes a key press in the creation form.
    fn on_creating_key(&mut self, key: Key) -> (c: Command)
        requires
            wf(old(self)@),
        ensures
            (final(self)@, c@) == creating_key(old(self)@, key),
            wf(final(self)@),
    {
        match key {
            Key::Enter => self.submit_input(),
            Key::Esc => {
                self.cancel_input();
                Command::Wait
            },
            Key::Char(c) => {
                let description = with_char(self.todo_input.as_str(), c);
                self.describe(description);
                Command::Wait
            },
            Key::Backspace => {
                let description = drop_last_char(self.todo_input.as_str());
                self.describe(description);
                Command::Wait
            },
            _ => Command::Wait,
        }
    }

    /// Takes a press of the pointer button in the normal mode.
    fn on_normal_click(&mut self, column: u16, row: u16) -> (c: Command)
        requires
            wf(old(self)@),
        ensures
            (final(self)@, c@) == normal_click(old(self)@, column, row),
            wf(final(self)@),
    {
        match self.handle_click(column, row) {
            Some(i) => {
                self.selected = Some(i);
                self.button_selected = false;
            },
            None => {},
        }
        if self.is_new_button_clicked(column, row) {
            self.start_create_worktree();
        }
        Command::Wait
    }

    /// Takes an input event: moves the state on and names the command to run
    /// next.
    pub fn handle_event(&mut self, event: Event) -> (c: Command)
        requires
            wf(old(self)@),
        ensures
            (final(self)@, c@) == after_event(old(self)@, event),
            wf(final(self)@),
    {
        if self.pending != Pending::Idle {
            return Command::Wait;
        }
        match event {
            Event::Key(key) => {
                self.error_message = None;
                match self.input_mode {
                    InputMode::Normal => self.on_normal_key(key),
                    InputMode::Help => {
                        match key {
                            Key::Char('q') | Key::Esc | Key::Char('?') => self.toggle_help(),
                            _ => {},
                        }
                        Command::Wait
                    },
                    InputMode::ConfirmDelete => match key {
                        Key::Char('y') | Key::Char('Y') | Key::Enter => self.confirm_delete(),
                        Key::Char('n') | Key::Char('N') | Key::Esc => {
                            self.cancel_delete();
                            Command::Wait
                        },
                        _ => Command::Wait,
                    },
                    InputMode::CreatingWorktree => self.on_creating_key(key),
                }
            },
            Event::Click { column, row } => {
                if self.input_mode == InputMode::Normal {
                    self.error_message = None;
                    self.on_normal_click(column, row)
                } else {
                    Command::Wait
                }
            },
        }
    }

    /// The name of the worktree whose deletion waits for confirmation.
    fn delete_name(&self) -> (r: Option<String>)
        ensures
            opt_text(r) == match self@.worktree_to_delete {
                Some(w) => Some(w.name),
                None => None,
            },
    {
        match &self.worktree_to_delete {
            Some(w) => Some(w.name.clone()),
            None => None,
        }
    }

    /// Whether the interface runs in the session `name`.
    fn runs_in(&self, name: &String) -> (r: bool)
        ensures
            r == (self@.current_session == Some(name@)),
    {
        match &self.current_session {
            Some(s) => *s == *name,
            None => false,
        }
    }

    /// Takes the reply to a command of a deletion.
    fn on_delete_reply(&mut self, reply: Reply) -> (c: Command)
        requires
            wf(old(self)@),
            old(self).pending == Pending::Delete || old(self).pending == Pending::SaveAfterDelete
                || old(self).pending == Pending::RefreshAfterDelete,
        ensures
            (final(self)@, c@) == after_reply(old(self)@, reply@),
            wf(final(self)@),
    {
        let stage = self.pending;
        self.pending = Pending::Idle;
        match reply {
            Reply::Failed(message) => {
                let message = if stage == Pending::Delete {
                    appended("Failed to delete worktree: ", message.as_str())
                } else {
                    message
                };
                self.fail(message);
                self.cancel_delete();
                Command::Wait
            },
            Reply::Done => {
                let name = self.delete_name();
                if stage == Pending::Delete {
                    match name {
                        Some(name) => {
                            let mut app_config = self.app_config.clone();
                            app_config.mark_todo_done(name.as_str());
                            self.pending = Pending::SaveAfterDelete;
                            Command::Save { app_config }
                        },
                        None => Command::Wait,
                    }
                } else if stage == Pending::SaveAfterDelete {
                    match name {
                        Some(name) => {
                            self.app_config.mark_todo_done(name.as_str());
                            if self.runs_in(&name) {
                                self.pending = Pending::KillSession;
                                Command::KillSession { name }
                            } else {
                                self.pending = Pending::RefreshAfterDelete;
                                Command::Refresh
                            }
                        },
                        None => {
                            self.pending = Pending::RefreshAfterDelete;
                            Command::Refresh
                        },
                    }
                } else {
                    self.cancel_delete();
                    Command::Wait
                }
            },
            Reply::Snapshot { worktrees, app_config } => {
                if stage == Pending::RefreshAfterDelete {
                    self.refresh_worktrees(worktrees, app_config);
                    self.cancel_delete();
                }
                Command::Wait
            },
            Reply::Dirty(_) => {
                if stage == Pending::RefreshAfterDelete {
                    self.cancel_delete();
                }
                Command::Wait
            },
        }
    }

    /// Takes the reply to a command of a creation.
    fn on_create_reply(&mut self, reply: Reply) -> (c: Command)
        requires
            wf(old(self)@),
            old(self).pending == Pending::Create || old(self).pending == Pending::SaveAfterCreate
                || old(self).pending == Pending::RefreshAfterCreate,
        ensures
            (final(self)@, c@) == after_reply(old(self)@, reply@),
            wf(final(self)@),
    {
        let stage = self.pending;
        self.pending = Pending::Idle;
        match reply {
            Reply::Failed(message) => {
                if stage == Pending::Create {
                    self.fail(appended("Failed to create worktree: ", message.as_str()));
                } else {
                    self.cancel_input();
                    self.fail(message);
                }
                Command::Wait
            },
            Reply::Done => {
                if stage == Pending::Create {
                    let mut app_config = self.app_config.clone();
                    app_config.add_todo(
                        trim(self.todo_input.as_str()),
                        trim(self.worktree_input.as_str()),
                    );
                    self.pending = Pending::SaveAfterCreate;
                    Command::Save { app_config }
                } else if stage == Pending::SaveAfterCreate {
                    self.app_config.add_todo(
                        trim(self.todo_input.as_str()),
                        trim(self.worktree_input.as_str()),
                    );
                    self.pending = Pending::RefreshAfterCreate;
                    Command::Refresh
                } else {
                    self.cancel_input();
                    Command::Wait
                }
            },
            Reply::Snapshot { worktrees, app_config } => {
                if stage == Pending::RefreshAfterCreate {
                    self.refresh_worktrees(worktrees, app_config);
                    self.cancel_input();
                    let n = self.app_config.todos.len();
                    if n > 0 {
                        self.selected = Some(n - 1);
                        self.button_selected = false;
                    } else {
                        self.selected = None;
                    }
                }
                Command::Wait
            },
            Reply::Dirty(_) => {
                if stage == Pending::RefreshAfterCreate {
                    self.cancel_input();
                }
                Command::Wait
            },
        }
    }

    /// Takes the reply to the command that is under way: moves the state on
    /// and names the command to run next.
    pub fn handle_reply(&mut self, reply: Reply) -> (c: Command)
        requires
            wf(old(self)@),
        ensures
            (final(self)@, c@) == after_reply(old(self)@, reply@),
            wf(final(self)@),
    {
        match self.pending {
            Pending::Idle => Command::Wait,
            Pending::DirtyCheck => {
                self.pending = Pending::Idle;
                match reply {
                    Reply::Dirty(dirty) => {
                        match self.target() {
                            Some(w) => {
                                self.worktree_to_delete = Some(w);
                                self.delete_is_dirty = dirty;
                                self.input_mode = InputMode::ConfirmDelete;
                            },
                            None => {},
                        }
                    },
                    Reply::Failed(message) => {
                        self.fail(message);
                    },
                    _ => {},
                }
                Command::Wait
            },
            Pending::Delete | Pending::SaveAfterDelete | Pending::RefreshAfterDelete => {
                self.on_delete_reply(reply)
            },
            Pending::KillSession => {
                self.pending = Pending::RefreshAfterDelete;
                Command::Refresh
            },
            Pending::Create | Pending::SaveAfterCreate | Pending::RefreshAfterCreate => {
                self.on_create_reply(reply)
            },
            Pending::Refresh => {
                self.pending = Pending::Idle;
                match reply {
                    Reply::Snapshot { worktrees, app_config } => {
                        self.refresh_worktrees(worktrees, app_config);
                    },
                    Reply::Failed(message) => {
                        self.fail(message);
                    },
                    _ => {},
                }
                Command::Wait
            },
        }
    }
}

} // verus!
