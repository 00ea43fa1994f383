//! The screen as a value: what is to be drawn, and where.
//!
//! The projection takes the state and the area of the terminal and yields the
//! regions of the frame and the text in each of them. The regions of the list
//! and of the button are stored in the state, where the hit tests of the next
//! pointer event read them. Painting the value onto the terminal is left to
//! the caller.

use vstd::prelude::*;
use crate::config::{todo_views, Todo, TodoStatus, TodoView};
use crate::git::{first_named, position_of, worktree_views, Worktree, WorktreeView};
use crate::layout::{
    is_stripe_of, lies_in, split_columns, split_form, split_rows, Direction, Rect,
};
use crate::text::{appended, clone_text, opt_text};
use crate::tui::{can_create, focused_todo, App, AppView, InputMode};

verus! {

/// The colour of a piece of text.
#[derive(Debug, Clone, Copy, PartialEq, Eq, Structural)]
pub enum Color {
    Plain,
    Green,
    White,
    DarkGray,
    Gray,
    Yellow,
    Red,
    Cyan,
}

/// A piece of text in one colour, bold or not.
#[derive(Debug)]
pub struct Span {
    pub text: String,
    pub color: Color,
    pub bold: bool,
}

/// A span as plain text.
pub struct SpanView {
    pub text: Seq<char>,
    pub color: Color,
    pub bold: bool,
}

impl View for Span {
    type V = SpanView;

    open spec fn view(&self) -> SpanView {
        SpanView { text: self.text@, color: self.color, bold: self.bold }
    }
}

/// The views of the spans of a line.
pub open spec fn line_view(line: Vec<Span>) -> Seq<SpanView> {
    line@.map_values(|s: Span| s@)
}

/// The views of a sequence of lines.
pub open spec fn line_views(lines: Seq<Vec<Span>>) -> Seq<Seq<SpanView>> {
    lines.map_values(|line: Vec<Span>| line_view(line))
}

/// A span that is not bold.
pub open spec fn plain(text: Seq<char>, color: Color) -> SpanView {
    SpanView { text, color, bold: false }
}

/// A bold span.
pub open spec fn bold(text: Seq<char>, color: Color) -> SpanView {
    SpanView { text, color, bold: true }
}

/// Makes a span.
fn span(text: &str, color: Color, bold: bool) -> (r: Span)
    ensures
        r@ == (SpanView { text: text@, color, bold }),
{
    Span { text: text.to_string(), color, bold }
}

/// Makes a line of one span.
fn line_of_one(a: Span) -> (r: Vec<Span>)
    ensures
        line_view(r) == seq![a@],
{
    let mut v: Vec<Span> = Vec::new();
    v.push(a);
    assert(line_view(v) =~= seq![a@]);
    v
}

/// Makes a line of two spans.
fn line_of_two(a: Span, b: Span) -> (r: Vec<Span>)
    ensures
        line_view(r) == seq![a@, b@],
{
    let mut v: Vec<Span> = Vec::new();
    v.push(a);
    v.push(b);
    assert(line_view(v) =~= seq![a@, b@]);
    v
}

/// Makes a line of three spans.
fn line_of_three(a: Span, b: Span, c: Span) -> (r: Vec<Span>)
    ensures
        line_view(r) == seq![a@, b@, c@],
{
    let mut v: Vec<Span> = Vec::new();
    v.push(a);
    v.push(b);
    v.push(c);
    assert(line_view(v) =~= seq![a@, b@, c@]);
    v
}

/// Makes a line of four spans.
fn line_of_four(a: Span, b: Span, c: Span, d: Span) -> (r: Vec<Span>)
    ensures
        line_view(r) == seq![a@, b@, c@, d@],
{
    let mut v: Vec<Span> = Vec::new();
    v.push(a);
    v.push(b);
    v.push(c);
    v.push(d);
    assert(line_view(v) =~= seq![a@, b@, c@, d@]);
    v
}

/// Makes an empty line.
fn empty_line() -> (r: Vec<Span>)
    ensures
        line_view(r) == Seq::<SpanView>::empty(),
{
    let v: Vec<Span> = Vec::new();
    assert(line_view(v) =~= Seq::<SpanView>::empty());
    v
}

/// Whether the listing has a worktree named `name`.
pub open spec fn is_listed(worktrees: Seq<WorktreeView>, name: Seq<char>) -> bool {
    first_named(worktrees, name, 0) < worktrees.len()
}

/// What a row says of the todo's link: nothing where the todo has none, the
/// worktree's name in brackets where the listing has that worktree, and the
/// same followed by `[deleted]` where it has not.
pub open spec fn link_note(todo: TodoView, worktrees: Seq<WorktreeView>) -> Seq<char> {
    match todo.worktree {
        Some(name) => if is_listed(worktrees, name) {
            " ("@ + name + ")"@
        } else {
            " ("@ + name + ") [deleted]"@
        },
        None => Seq::empty(),
    }
}

/// The row of a todo: a check box, ticked where the todo is done; the
/// description, dimmed where the todo is done; and the note on its link.
pub open spec fn row_of(todo: TodoView, worktrees: Seq<WorktreeView>) -> Seq<SpanView> {
    seq![
        plain(
            if todo.status == TodoStatus::Done {
                "[\u{2713}] "@
            } else {
                "[ ] "@
            },
            Color::Green,
        ),
        plain(
            todo.description,
            if todo.status == TodoStatus::Done {
                Color::DarkGray
            } else {
                Color::White
            },
        ),
        plain(link_note(todo, worktrees), Color::DarkGray),
    ]
}

/// The rows of a list of todos.
pub open spec fn rows_of(todos: Seq<TodoView>, worktrees: Seq<WorktreeView>) -> Seq<
    Seq<SpanView>,
> {
    todos.map_values(|todo: TodoView| row_of(todo, worktrees))
}

/// The row of a todo.
pub fn todo_row(todo: &Todo, worktrees: &Vec<Worktree>) -> (r: Vec<Span>)
    ensures
        line_view(r) == row_of(todo@, worktree_views(worktrees@)),
{
    let done = match todo.status {
        TodoStatus::Done => true,
        TodoStatus::Pending => false,
    };
    let note = match &todo.worktree {
        Some(name) => {
            let mut s = appended(" (", name.as_str());
            if position_of(worktrees, name.as_str()).is_some() {
                s.append(")");
            } else {
                s.append(") [deleted]");
            }
            s
        },
        None => {
            proof {
                reveal_strlit("");
                assert(""@ =~= Seq::<char>::empty());
            }
            "".to_string()
        },
    };
    line_of_three(
        span(
            if done {
                "[\u{2713}] "
            } else {
                "[ ] "
            },
            Color::Green,
            false,
        ),
        span(
            todo.description.as_str(),
            if done {
                Color::DarkGray
            } else {
                Color::White
            },
            false,
        ),
        Span { text: note, color: Color::DarkGray, bold: false },
    )
}

/// The rows of a list of todos.
pub fn todo_rows(todos: &Vec<Todo>, worktrees: &Vec<Worktree>) -> (r: Vec<Vec<Span>>)
    ensures
        line_views(r@) == rows_of(todo_views(todos@), worktree_views(worktrees@)),
{
    let mut out: Vec<Vec<Span>> = Vec::new();
    let mut i: usize = 0;
    while i < todos.len()
        invariant
            i <= todos.len(),
            out.len() == i,
            forall|j: int|
                0 <= j < i ==> line_view(#[trigger] out[j]) == row_of(
                    todos[j]@,
                    worktree_views(worktrees@),
                ),
        decreases todos.len() - i,
    {
        out.push(todo_row(&todos[i], worktrees));
        i += 1;
    }
    assert(line_views(out@) =~= rows_of(todo_views(todos@), worktree_views(worktrees@)));
    out
}

/// The key summary for a region that is `width` cells wide: the narrower the
/// region, the shorter the summary.
pub open spec fn help_for(width: u16) -> Seq<char> {
    if width >= 90 {
        "q: Quit | n: New | d: Delete | r: Refresh | Tab: Toggle | Enter: Select | ?: Help"@
    } else if width >= 70 {
        "q: Quit | n: New | d: Delete | r: Refresh | Tab: Toggle | ?: Help"@
    } else if width >= 50 {
        "q: Quit | n: New | d: Del | r: Refresh | ?: Help"@
    } else {
        "q: Quit | n: New | d: Del | ?: Help"@
    }
}

/// The key summary for a region that is `width` cells wide.
pub fn help_text(width: u16) -> (r: String)
    ensures
        r@ == help_for(width),
{
    if width >= 90 {
        "q: Quit | n: New | d: Delete | r: Refresh | Tab: Toggle | Enter: Select | ?: Help".to_string()
    } else if width >= 70 {
        "q: Quit | n: New | d: Delete | r: Refresh | Tab: Toggle | ?: Help".to_string()
    } else if width >= 50 {
        "q: Quit | n: New | d: Del | r: Refresh | ?: Help".to_string()
    } else {
        "q: Quit | n: New | d: Del | ?: Help".to_string()
    }
}

/// The title of the key summary: the error message where there is one, so
/// that it is seen in the normal mode too, and `Keys` otherwise.
pub open spec fn help_title_of(error: Option<Seq<char>>) -> Seq<char> {
    match error {
        Some(message) => message,
        None => "Keys"@,
    }
}

/// The title of the key summary.
pub fn help_title(error: &Option<String>) -> (r: String)
    ensures
        r@ == help_title_of(opt_text(*error)),
{
    match error {
        Some(message) => message.clone(),
        None => "Keys".to_string(),
    }
}

/// The hint below the creation form.
pub open spec fn input_help_for(ready: bool) -> Seq<char> {
    if ready {
        "Enter: Create | Esc: Cancel"@
    } else {
        "Type a description to continue | Esc: Cancel"@
    }
}

/// The hint below the creation form: how to submit it where it can be
/// submitted, and what is missing where it cannot.
pub fn input_help_text(ready: bool) -> (r: String)
    ensures
        r@ == input_help_for(ready),
{
    if ready {
        "Enter: Create | Esc: Cancel".to_string()
    } else {
        "Type a description to continue | Esc: Cancel".to_string()
    }
}

/// A heading of the help screen.
pub open spec fn heading(text: Seq<char>) -> Seq<SpanView> {
    seq![bold(text, Color::Cyan)]
}

/// A line of the help screen that explains one key.
pub open spec fn key_line(key: Seq<char>, meaning: Seq<char>) -> Seq<SpanView> {
    seq![plain(key, Color::Yellow), plain(meaning, Color::Plain)]
}

/// The lines of the help screen.
pub open spec fn help_lines() -> Seq<Seq<SpanView>> {
    seq![
        heading("Navigation"@),
        Seq::empty(),
        key_line("  \u{2191}/k        "@, "Move selection up"@),
        key_line("  \u{2193}/j        "@, "Move selection down"@),
        key_line("  Tab        "@, "Toggle between list and New button"@),
        key_line("  Enter      "@, "Select worktree or activate button"@),
        Seq::empty(),
        heading("Actions"@),
        Seq::empty(),
        key_line("  n/c        "@, "Create new worktree"@),
        key_line("  d          "@, "Delete selected worktree"@),
        key_line("  r          "@, "Refresh worktree list"@),
        key_line("  ?          "@, "Toggle this help screen"@),
        key_line("  q/Esc      "@, "Quit application"@),
    ]
}

/// Makes a heading of the help screen.
fn heading_line(text: &str) -> (r: Vec<Span>)
    ensures
        line_view(r) == heading(text@),
{
    line_of_one(span(text, Color::Cyan, true))
}

/// Makes a line of the help screen that explains one key.
fn help_line(key: &str, meaning: &str) -> (r: Vec<Span>)
    ensures
        line_view(r) == key_line(key@, meaning@),
{
    line_of_two(span(key, Color::Yellow, false), span(meaning, Color::Plain, false))
}

/// The lines of the help screen.
pub fn full_help() -> (r: Vec<Vec<Span>>)
    ensures
        line_views(r@) == help_lines(),
{
    let mut v: Vec<Vec<Span>> = Vec::new();
    v.push(heading_line("Navigation"));
    v.push(empty_line());
    v.push(help_line("  \u{2191}/k        ", "Move selection up"));
    v.push(help_line("  \u{2193}/j        ", "Move selection down"));
    v.push(help_line("  Tab        ", "Toggle between list and New button"));
    v.push(help_line("  Enter      ", "Select worktree or activate button"));
    v.push(empty_line());
    v.push(heading_line("Actions"));
    v.push(empty_line());
    v.push(help_line("  n/c        ", "Create new worktree"));
    v.push(help_line("  d          ", "Delete selected worktree"));
    v.push(help_line("  r          ", "Refresh worktree list"));
    v.push(help_line("  ?          ", "Toggle this help screen"));
    v.push(help_line("  q/Esc      ", "Quit application"));
    assert(line_views(v@) =~= help_lines());
    v
}

/// The line that asks whether the worktree `name` is to be deleted.
pub open spec fn question_line(name: Seq<char>) -> Seq<SpanView> {
    seq![
        plain("Delete worktree '"@, Color::Plain),
        bold(name, Color::Cyan),
        plain("'?"@, Color::Plain),
    ]
}

/// The line that names the two answers; where the worktree has uncommitted
/// changes it says that a yes deletes by force.
pub open spec fn answer_line(dirty: bool) -> Seq<SpanView> {
    seq![
        bold("Y"@, Color::Green),
        plain(
            if dirty {
                "es (force delete) | "@
            } else {
                "es | "@
            },
            Color::Plain,
        ),
        bold("N"@, Color::Red),
        plain("o / Esc"@, Color::Plain),
    ]
}

/// The line that warns of uncommitted changes.
pub open spec fn warning_line() -> Seq<SpanView> {
    seq![
        bold("\u{26a0} WARNING: "@, Color::Red),
        plain("This worktree has uncommitted changes!"@, Color::Yellow),
    ]
}

/// The lines that ask for the confirmation of a deletion: the question and
/// the answers, and before them a warning where the worktree has uncommitted
/// changes.
pub open spec fn confirm_lines(name: Seq<char>, dirty: bool) -> Seq<Seq<SpanView>> {
    if dirty {
        seq![warning_line(), Seq::empty(), question_line(name), Seq::empty(), answer_line(true)]
    } else {
        seq![question_line(name), Seq::empty(), answer_line(false)]
    }
}

/// The lines that ask for the confirmation of the deletion of the worktree
/// `name`.
pub fn confirm_delete_message(name: &str, dirty: bool) -> (r: Vec<Vec<Span>>)
    ensures
        line_views(r@) == confirm_lines(name@, dirty),
{
    let mut v: Vec<Vec<Span>> = Vec::new();
    if dirty {
        v.push(
            line_of_two(
                span("\u{26a0} WARNING: ", Color::Red, true),
                span("This worktree has uncommitted changes!", Color::Yellow, false),
            ),
        );
        v.push(empty_line());
    }
    v.push(
        line_of_three(
            span("Delete worktree '", Color::Plain, false),
            span(name, Color::Cyan, true),
            span("'?", Color::Plain, false),
        ),
    );
    v.push(empty_line());
    v.push(
        line_of_four(
            span("Y", Color::Green, true),
            span(
                if dirty {
                    "es (force delete) | "
                } else {
                    "es | "
                },
                Color::Plain,
                false,
            ),
            span("N", Color::Red, true),
            span("o / Esc", Color::Plain, false),
        ),
    );
    assert(line_views(v@) =~= confirm_lines(name@, dirty));
    v
}

/// The regions of a frame, by the mode it is drawn in.
#[derive(Debug, Clone, Copy, PartialEq, Eq, Structural)]
pub enum Regions {
    /// The list, and below it a row with the key summary and the button.
    Normal { list: Rect, help: Rect, button: Rect },
    /// The two fields of the form, the room for an error below them, and the
    /// hint at the bottom.
    CreatingWorktree { description: Rect, name: Rect, error: Rect, help: Rect },
    /// The help text and its footer.
    Help { body: Rect, footer: Rect },
    /// The list, and below it the question.
    ConfirmDelete { list: Rect, confirm: Rect },
}

impl Regions {
    /// The mode that the regions are laid out for.
    pub open spec fn mode(self) -> InputMode {
        match self {
            Regions::Normal { .. } => InputMode::Normal,
            Regions::CreatingWorktree { .. } => InputMode::CreatingWorktree,
            Regions::Help { .. } => InputMode::Help,
            Regions::ConfirmDelete { .. } => InputMode::ConfirmDelete,
        }
    }

    /// Whether the regions fit the area `area`: every region lies inside the
    /// area, every region that takes whole rows begins at the left edge of
    /// the area and is as wide, and the key summary and the button share
    /// their rows.
    pub open spec fn fits(self, area: Rect) -> bool {
        match self {
            Regions::Normal { list, help, button } => is_stripe_of(list, area, Direction::Vertical)
                && lies_in(help, area) && lies_in(button, area) && help.y == button.y
                && help.height == button.height,
            Regions::CreatingWorktree { description, name, error, help } => is_stripe_of(
                description,
                area,
                Direction::Vertical,
            ) && is_stripe_of(name, area, Direction::Vertical) && is_stripe_of(
                error,
                area,
                Direction::Vertical,
            ) && is_stripe_of(help, area, Direction::Vertical),
            Regions::Help { body, footer } => is_stripe_of(body, area, Direction::Vertical)
                && is_stripe_of(footer, area, Direction::Vertical),
            Regions::ConfirmDelete { list, confirm } => is_stripe_of(
                list,
                area,
                Direction::Vertical,
            ) && is_stripe_of(confirm, area, Direction::Vertical),
        }
    }
}

/// The rows that the bottom of the frame asks for in a mode: eight where a
/// deletion is to be confirmed, and three otherwise.
pub open spec fn bottom_rows_of(mode: InputMode) -> u16 {
    if mode == InputMode::ConfirmDelete {
        8
    } else {
        3
    }
}

/// The rows that the bottom of the frame asks for in a mode.
pub fn bottom_rows(mode: InputMode) -> (r: u16)
    ensures
        r == bottom_rows_of(mode),
{
    match mode {
        InputMode::ConfirmDelete => 8,
        _ => 3,
    }
}

/// Lays out the frame of a mode in the area of the terminal. The area is cut
/// into an upper part and a bottom of as many rows as the mode asks for, by
/// the constraints of `rows_plan`. In the normal mode the bottom is cut into
/// the key summary and the button, by those of `columns_plan`, and in the
/// creation form the upper part is cut into the two fields and the room below
/// them, by those of `form_plan`. What the regions are is the answer of the
/// layout to these constraints; the contract says what holds of every answer.
pub fn regions(mode: InputMode, area: Rect) -> (r: Regions)
    ensures
        r.mode() == mode,
        r.fits(area),
{
    let (upper, lower) = split_rows(area, bottom_rows(mode));
    match mode {
        InputMode::Normal => {
            let (help, button) = split_columns(lower);
            Regions::Normal { list: upper, help, button }
        },
        InputMode::CreatingWorktree => {
            let (description, name, error) = split_form(upper);
            Regions::CreatingWorktree { description, name, error, help: lower }
        },
        InputMode::Help => Regions::Help { body: upper, footer: lower },
        InputMode::ConfirmDelete => Regions::ConfirmDelete { list: upper, confirm: lower },
    }
}

/// What is to be drawn, and where.
#[derive(Debug)]
pub enum Screen {
    /// The list with the focus on one of its rows, the key summary under its
    /// title, and the button. The title of the key summary is the error
    /// message where there is one.
    Normal {
        list_area: Rect,
        rows: Vec<Vec<Span>>,
        selected: Option<usize>,
        help_area: Rect,
        help_title: String,
        help: String,
        button_area: Rect,
    },
    /// The two fields of the form with their texts, the error message if
    /// there is one, and the hint.
    CreatingWorktree {
        description_area: Rect,
        description: String,
        name_area: Rect,
        worktree_name: String,
        error_area: Rect,
        error: Option<String>,
        help_area: Rect,
        help: String,
    },
    /// The help text and its footer.
    Help { body_area: Rect, lines: Vec<Vec<Span>>, footer_area: Rect, footer: String },
    /// The list, and the question whether the worktree is to be deleted.
    ConfirmDelete {
        list_area: Rect,
        rows: Vec<Vec<Span>>,
        selected: Option<usize>,
        confirm_area: Rect,
        message: Vec<Vec<Span>>,
    },
}

/// A screen as plain text.
pub enum ScreenView {
    Normal {
        list_area: Rect,
        rows: Seq<Seq<SpanView>>,
        selected: Option<usize>,
        help_area: Rect,
        help_title: Seq<char>,
        help: Seq<char>,
        button_area: Rect,
    },
    CreatingWorktree {
        description_area: Rect,
        description: Seq<char>,
        name_area: Rect,
        worktree_name: Seq<char>,
        error_area: Rect,
        error: Option<Seq<char>>,
        help_area: Rect,
        help: Seq<char>,
    },
    Help { body_area: Rect, lines: Seq<Seq<SpanView>>, footer_area: Rect, footer: Seq<char> },
    ConfirmDelete {
        list_area: Rect,
        rows: Seq<Seq<SpanView>>,
        selected: Option<usize>,
        confirm_area: Rect,
        message: Seq<Seq<SpanView>>,
    },
}

impl View for Screen {
    type V = ScreenView;

    open spec fn view(&self) -> ScreenView {
        match self {
            Screen::Normal {
                list_area,
                rows,
                selected,
                help_area,
                help_title,
                help,
                button_area,
            } => ScreenView::Normal {
                list_area: *list_area,
                rows: line_views(rows@),
                selected: *selected,
                help_area: *help_area,
                help_title: help_title@,
                help: help@,
                button_area: *button_area,
            },
            Screen::CreatingWorktree {
                description_area,
                description,
                name_area,
                worktree_name,
                error_area,
                error,
                help_area,
                help,
            } => ScreenView::CreatingWorktree {
                description_area: *description_area,
                description: description@,
                name_area: *name_area,
                worktree_name: worktree_name@,
                error_area: *error_area,
                error: opt_text(*error),
                help_area: *help_area,
                help: help@,
            },
            Screen::Help { body_area, lines, footer_area, footer } => ScreenView::Help {
                body_area: *body_area,
                lines: line_views(lines@),
                footer_area: *footer_area,
                footer: footer@,
            },
            Screen::ConfirmDelete {
                list_area,
                rows,
                selected,
                confirm_area,
                message,
            } => ScreenView::ConfirmDelete {
                list_area: *list_area,
                rows: line_views(rows@),
                selected: *selected,
                confirm_area: *confirm_area,
                message: line_views(message@),
            },
        }
    }
}

/// The regions in which a screen is drawn.
pub open spec fn regions_of(screen: ScreenView) -> Regions {
    match screen {
        ScreenView::Normal { list_area, help_area, button_area, .. } => Regions::Normal {
            list: list_area,
            help: help_area,
            button: button_area,
        },
        ScreenView::CreatingWorktree {
            description_area,
            name_area,
            error_area,
            help_area,
            ..
        } => Regions::CreatingWorktree {
            description: description_area,
            name: name_area,
            error: error_area,
            help: help_area,
        },
        ScreenView::Help { body_area, footer_area, .. } => Regions::Help {
            body: body_area,
            footer: footer_area,
        },
        ScreenView::ConfirmDelete { list_area, confirm_area, .. } => Regions::ConfirmDelete {
            list: list_area,
            confirm: confirm_area,
        },
    }
}

/// The screen that shows a state in given regions. The list shows a row for
/// each todo, and marks the one that has the focus. The key summary is the one for the width of its region. The
/// form shows its two texts, and the hint below it says whether it can be
/// submitted. The question names the worktree that waits for its deletion.
pub open spec fn screen_of(v: AppView, regions: Regions) -> ScreenView {
    match regions {
        Regions::Normal { list, help, button } => ScreenView::Normal {
            list_area: list,
            rows: rows_of(v.app_config.todos, v.worktrees),
            selected: focused_todo(v),
            help_area: help,
            help_title: help_title_of(v.error_message),
            help: help_for(help.width),
            button_area: button,
        },
        Regions::CreatingWorktree { description, name, error, help } => {
            ScreenView::CreatingWorktree {
                description_area: description,
                description: v.todo_input,
                name_area: name,
                worktree_name: v.worktree_input,
                error_area: error,
                error: v.error_message,
                help_area: help,
                help: input_help_for(can_create(v)),
            }
        },
        Regions::Help { body, footer } => ScreenView::Help {
            body_area: body,
            lines: help_lines(),
            footer_area: footer,
            footer: "Press ? or Esc to close"@,
        },
        Regions::ConfirmDelete { list, confirm } => ScreenView::ConfirmDelete {
            list_area: list,
            rows: rows_of(v.app_config.todos, v.worktrees),
            selected: focused_todo(v),
            confirm_area: confirm,
            message: match v.worktree_to_delete {
                Some(w) => confirm_lines(w.name, v.delete_is_dirty),
                None => Seq::empty(),
            },
        },
    }
}

/// The state that remembers where the list and the button were drawn.
pub open spec fn with_regions(v: AppView, regions: Regions) -> AppView {
    match regions {
        Regions::Normal { list, button, .. } => AppView { list_area: list, button_area: button, ..v },
        Regions::ConfirmDelete { list, .. } => AppView { list_area: list, ..v },
        _ => v,
    }
}

/// The screen that shows a state in given regions.
pub fn screen_for(app: &App, regions: Regions) -> (r: Screen)
    ensures
        r@ == screen_of(app@, regions),
{
    match regions {
        Regions::Normal { list, help, button } => Screen::Normal {
            list_area: list,
            rows: todo_rows(&app.app_config.todos, &app.worktrees),
            selected: app.focused(),
            help_area: help,
            help_title: help_title(&app.error_message),
            help: help_text(help.width),
            button_area: button,
        },
        Regions::CreatingWorktree { description, name, error, help } => Screen::CreatingWorktree {
            description_area: description,
            description: app.todo_input.clone(),
            name_area: name,
            worktree_name: app.worktree_input.clone(),
            error_area: error,
            error: clone_text(&app.error_message),
            help_area: help,
            help: input_help_text(app.can_create_worktree()),
        },
        Regions::Help { body, footer } => Screen::Help {
            body_area: body,
            lines: full_help(),
            footer_area: footer,
            footer: "Press ? or Esc to close".to_string(),
        },
        Regions::ConfirmDelete { list, confirm } => {
            let message = match &app.worktree_to_delete {
                Some(w) => confirm_delete_message(w.name.as_str(), app.delete_is_dirty),
                None => {
                    let v: Vec<Vec<Span>> = Vec::new();
                    assert(line_views(v@) =~= Seq::<Seq<SpanView>>::empty());
                    v
                },
            };
            Screen::ConfirmDelete {
                list_area: list,
                rows: todo_rows(&app.app_config.todos, &app.worktrees),
                selected: app.focused(),
                confirm_area: confirm,
                message,
            }
        },
    }
}

/// Projects the state onto a frame for the area `area`, and stores in the
/// state where the list and the button are drawn. The regions are those that
/// the layout yields for the state's mode. The screen is the one that shows
/// the state in them.
pub fn ui(app: &mut App, area: Rect) -> (r: Screen)
    ensures
        regions_of(r@).mode() == old(app).input_mode,
        regions_of(r@).fits(area),
        r@ == screen_of(old(app)@, regions_of(r@)),
        final(app)@ == with_regions(old(app)@, regions_of(r@)),
{
    let found = regions(app.input_mode, area);
    let screen = screen_for(app, found);
    match found {
        Regions::Normal { list, button, .. } => {
            app.list_area = list;
            app.button_area = button;
        },
        Regions::ConfirmDelete { list, .. } => {
            app.list_area = list;
        },
        _ => {},
    }
    screen
}

} // verus!
