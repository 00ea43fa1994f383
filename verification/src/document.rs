//! Settings and todos as documents.
//!
//! A document is a tree of texts, numbers, lists and tables, as the formats
//! that keep settings on disk describe them. The settings are written into a
//! document and read back from one here. Turning a document into the text of a
//! file, and that text into a document, is left to the caller.

use vstd::prelude::*;
use crate::config::{
    default_plan, default_settings, default_windows, todo_views, window_views, AppConfig, AppConfigView, Config,
    ConfigView, StorageBackend, StorageBackendView, Todo, TodoStatus, TodoView, TmuxWindow,
    TmuxWindowView,
};
use crate::text::same_text;

verus! {

/// A node of a document.
#[derive(Debug)]
pub enum Value {
    Text(String),
    Integer(i64),
    Flag(bool),
    List(Vec<Value>),
    /// The entries of a table, each a key and a value, in the order in which
    /// they are written.
    Table(Vec<(String, Value)>),
    /// A value of a kind that the settings never hold.
    Other,
}

/// A node of a document as plain mathematical values.
pub enum ValueView {
    Text(Seq<char>),
    Integer(i64),
    Flag(bool),
    List(Seq<ValueView>),
    Table(Seq<(Seq<char>, ValueView)>),
    Other,
}

/// The view of a node: the views of its texts, and of the nodes below it.
pub open spec fn view_of(v: Value) -> ValueView
    decreases v,
{
    match v {
        Value::Text(s) => ValueView::Text(s@),
        Value::Integer(n) => ValueView::Integer(n),
        Value::Flag(b) => ValueView::Flag(b),
        Value::List(items) => ValueView::List(
            Seq::new(
                items@.len(),
                |i: int|
                    if 0 <= i < items@.len() {
                        view_of(items@[i])
                    } else {
                        ValueView::Other
                    },
            ),
        ),
        Value::Table(entries) => ValueView::Table(
            Seq::new(
                entries@.len(),
                |i: int|
                    if 0 <= i < entries@.len() {
                        (entries@[i].0@, view_of(entries@[i].1))
                    } else {
                        (Seq::empty(), ValueView::Other)
                    },
            ),
        ),
        Value::Other => ValueView::Other,
    }
}

impl View for Value {
    type V = ValueView;

    open spec fn view(&self) -> ValueView {
        view_of(*self)
    }
}

/// The part of the settings that a document fails to give.
#[derive(Debug, Clone, Copy, PartialEq, Eq, Structural)]
pub enum Field {
    Document,
    Windows,
    Window,
    WindowName,
    WindowCommand,
    Name,
    WorktreeNaming,
    StorageBackend,
    Owner,
    Repo,
    ProjectNumber,
    Todos,
    Todo,
    Description,
    Status,
    Worktree,
}

/// Why a document could not be read: the part that is missing or of the
/// wrong kind.
#[derive(Debug, Clone, Copy, PartialEq, Eq, Structural)]
pub struct DecodeError {
    pub field: Field,
}

/// The first position at or after `from` whose entry has the key `key`, or
/// the number of entries.
pub open spec fn first_entry(entries: Seq<(Seq<char>, ValueView)>, key: Seq<char>, from: int) -> int
    decreases entries.len() - from,
{
    if from < 0 || from >= entries.len() {
        entries.len() as int
    } else if entries[from].0 == key {
        from
    } else {
        first_entry(entries, key, from + 1)
    }
}

/// The value of the first entry with the key `key`, if the entries have one.
pub open spec fn entry(entries: Seq<(Seq<char>, ValueView)>, key: Seq<char>) -> Option<ValueView> {
    let i = first_entry(entries, key, 0);
    if i < entries.len() {
        Some(entries[i].1)
    } else {
        None
    }
}

/// The value of the first entry of a table that has the key `key`.
pub fn get<'a>(entries: &'a Vec<(String, Value)>, key: &str) -> (r: Option<&'a Value>)
    ensures
        match r {
            Some(v) => entry((Value::Table(*entries))@->Table_0, key@) == Some(v@),
            None => entry((Value::Table(*entries))@->Table_0, key@) is None,
        },
{
    let ghost table = (Value::Table(*entries))@->Table_0;
    let mut i: usize = 0;
    while i < entries.len()
        invariant
            i <= entries.len(),
            table == (Value::Table(*entries))@->Table_0,
            table.len() == entries.len(),
            first_entry(table, key@, 0) == first_entry(table, key@, i as int),
        decreases entries.len() - i,
    {
        assert(table[i as int] == (entries@[i as int].0@, entries@[i as int].1@));
        if same_text(entries[i].0.as_str(), key) {
            return Some(&entries[i].1);
        }
        i += 1;
    }
    None
}

/// Makes a table of the given entries.
fn table(entries: Vec<(String, Value)>) -> (r: Value)
    ensures
        r@ matches ValueView::Table(t) && t.len() == entries.len() && forall|i: int|
            0 <= i < entries.len() ==> #[trigger] t[i] == (entries[i].0@, entries[i].1@),
{
    Value::Table(entries)
}

/// Makes a list of the given items.
fn list(items: Vec<Value>) -> (r: Value)
    ensures
        r@ matches ValueView::List(l) && l.len() == items.len() && forall|i: int|
            0 <= i < items.len() ==> #[trigger] l[i] == items[i]@,
{
    Value::List(items)
}

/// Makes a text.
fn text(s: &str) -> (r: Value)
    ensures
        r@ == ValueView::Text(s@),
{
    Value::Text(s.to_string())
}

/// The document of a window: a table with the window's name and, where it
/// has one, its command.
pub open spec fn window_document(w: TmuxWindowView) -> ValueView {
    match w.command {
        Some(c) => ValueView::Table(
            seq![("name"@, ValueView::Text(w.name)), ("command"@, ValueView::Text(c))],
        ),
        None => ValueView::Table(seq![("name"@, ValueView::Text(w.name))]),
    }
}

/// The window that a document describes: a table whose `name` is a text and
/// whose `command`, if it has one, is a text.
pub open spec fn window_in(v: ValueView) -> Result<TmuxWindowView, DecodeError> {
    match v {
        ValueView::Table(entries) => match entry(entries, "name"@) {
            Some(ValueView::Text(name)) => match entry(entries, "command"@) {
                None => Ok(TmuxWindowView { name, command: None }),
                Some(ValueView::Text(c)) => Ok(TmuxWindowView { name, command: Some(c) }),
                Some(_) => Err(DecodeError { field: Field::WindowCommand }),
            },
            _ => Err(DecodeError { field: Field::WindowName }),
        },
        _ => Err(DecodeError { field: Field::Window }),
    }
}

/// The documents of a window plan, in the plan's order.
pub open spec fn window_documents(ws: Seq<TmuxWindowView>) -> Seq<ValueView> {
    ws.map_values(|w: TmuxWindowView| window_document(w))
}

/// The windows that the first `n` items of a list describe, or the error of
/// the first item that describes none.
pub open spec fn windows_in(items: Seq<ValueView>, n: int) -> Result<
    Seq<TmuxWindowView>,
    DecodeError,
>
    decreases n,
{
    if n <= 0 || n > items.len() {
        Ok(Seq::empty())
    } else {
        match windows_in(items, n - 1) {
            Err(e) => Err(e),
            Ok(ws) => match window_in(items[n - 1]) {
                Ok(w) => Ok(ws.push(w)),
                Err(e) => Err(e),
            },
        }
    }
}

/// The window plan that the entries of a table give: the windows of the list
/// `windows`, and the default plan where the table has no such entry.
pub open spec fn plan_in(entries: Seq<(Seq<char>, ValueView)>) -> Result<
    Seq<TmuxWindowView>,
    DecodeError,
> {
    match entry(entries, "windows"@) {
        None => Ok(default_plan()),
        Some(ValueView::List(items)) => windows_in(items, items.len() as int),
        Some(_) => Err(DecodeError { field: Field::Windows }),
    }
}

/// The document of a window plan: a table whose `windows` is the list of the
/// windows' documents.
pub open spec fn config_document(c: ConfigView) -> ValueView {
    ValueView::Table(seq![("windows"@, ValueView::List(window_documents(c.windows)))])
}

/// The window plan that a document describes.
pub open spec fn config_in(v: ValueView) -> Result<ConfigView, DecodeError> {
    match v {
        ValueView::Table(entries) => match plan_in(entries) {
            Ok(windows) => Ok(ConfigView { windows }),
            Err(e) => Err(e),
        },
        _ => Err(DecodeError { field: Field::Document }),
    }
}

/// The view of the result of reading a window.
pub open spec fn window_result(r: Result<TmuxWindow, DecodeError>) -> Result<
    TmuxWindowView,
    DecodeError,
> {
    match r {
        Ok(w) => Ok(w@),
        Err(e) => Err(e),
    }
}

/// The view of the result of reading a window plan.
pub open spec fn windows_result(r: Result<Vec<TmuxWindow>, DecodeError>) -> Result<
    Seq<TmuxWindowView>,
    DecodeError,
> {
    match r {
        Ok(ws) => Ok(window_views(ws@)),
        Err(e) => Err(e),
    }
}

/// Writes a window into a document.
pub fn window_to_document(w: &TmuxWindow) -> (r: Value)
    ensures
        r@ == window_document(w@),
{
    let mut entries: Vec<(String, Value)> = Vec::new();
    entries.push(("name".to_string(), text(w.name.as_str())));
    match &w.command {
        Some(c) => {
            entries.push(("command".to_string(), text(c.as_str())));
        },
        None => {},
    }
    let r = table(entries);
    assert(r@->Table_0 =~= window_document(w@)->Table_0);
    r
}

/// Reads a window from a document.
pub fn window_from_document(v: &Value) -> (r: Result<TmuxWindow, DecodeError>)
    ensures
        window_result(r) == window_in(v@),
{
    match v {
        Value::Table(entries) => {
            let name = match get(entries, "name") {
                Some(Value::Text(name)) => name.clone(),
                _ => {
                    return Err(DecodeError { field: Field::WindowName });
                },
            };
            match get(entries, "command") {
                None => Ok(TmuxWindow { name, command: None }),
                Some(Value::Text(c)) => Ok(TmuxWindow { name, command: Some(c.clone()) }),
                Some(_) => Err(DecodeError { field: Field::WindowCommand }),
            }
        },
        _ => Err(DecodeError { field: Field::Window }),
    }
}

/// Writes a window plan into a list of documents.
pub fn windows_to_document(ws: &Vec<TmuxWindow>) -> (r: Value)
    ensures
        r@ == ValueView::List(window_documents(window_views(ws@))),
{
    let mut items: Vec<Value> = Vec::new();
    let mut i: usize = 0;
    while i < ws.len()
        invariant
            i <= ws.len(),
            items.len() == i,
            forall|j: int| 0 <= j < i ==> (#[trigger] items[j])@ == window_document(ws[j]@),
        decreases ws.len() - i,
    {
        items.push(window_to_document(&ws[i]));
        i += 1;
    }
    let r = list(items);
    assert(r@->List_0 =~= window_documents(window_views(ws@)));
    r
}

/// Reads a window plan from the items of a list.
pub fn windows_from_items(items: &Vec<Value>) -> (r: Result<Vec<TmuxWindow>, DecodeError>)
    ensures
        windows_result(r) == windows_in(
            (Value::List(*items))@->List_0,
            items.len() as int,
        ),
{
    let ghost views = (Value::List(*items))@->List_0;
    let mut out: Vec<TmuxWindow> = Vec::new();
    let mut i: usize = 0;
    assert(window_views(out@) =~= Seq::<TmuxWindowView>::empty());
    while i < items.len()
        invariant
            i <= items.len(),
            views == (Value::List(*items))@->List_0,
            views.len() == items.len(),
            windows_in(views, i as int) == Ok::<Seq<TmuxWindowView>, DecodeError>(
                window_views(out@),
            ),
        decreases items.len() - i,
    {
        assert(views[i as int] == items@[i as int]@);
        match window_from_document(&items[i]) {
            Ok(w) => {
                let ghost before = window_views(out@);
                out.push(w);
                assert(window_views(out@) =~= before.push(w@));
            },
            Err(e) => {
                proof {
                    lemma_windows_error_stays(views, i + 1, items.len() as int);
                }
                return Err(e);
            },
        }
        i += 1;
    }
    Ok(out)
}

/// Once the first `n` items fail to describe windows, so do the first `m`
/// for every larger `m`, with the same error.
pub proof fn lemma_windows_error_stays(items: Seq<ValueView>, n: int, m: int)
    requires
        0 <= n <= m <= items.len(),
        windows_in(items, n) is Err,
    ensures
        windows_in(items, m) == windows_in(items, n),
    decreases m - n,
{
    if n < m {
        lemma_windows_error_stays(items, n, m - 1);
    }
}

/// Reads the window plan that the entries of a table give.
pub fn plan_from_entries(entries: &Vec<(String, Value)>) -> (r: Result<
    Vec<TmuxWindow>,
    DecodeError,
>)
    ensures
        windows_result(r) == plan_in((Value::Table(*entries))@->Table_0),
{
    match get(entries, "windows") {
        None => Ok(default_windows()),
        Some(Value::List(items)) => windows_from_items(items),
        Some(_) => Err(DecodeError { field: Field::Windows }),
    }
}

/// The view of the result of reading a window plan as settings.
pub open spec fn config_result(r: Result<Config, DecodeError>) -> Result<ConfigView, DecodeError> {
    match r {
        Ok(c) => Ok(c@),
        Err(e) => Err(e),
    }
}

impl Config {
    /// Writes the window plan into a document.
    pub fn to_document(&self) -> (r: Value)
        ensures
            r@ == config_document(self@),
    {
        let mut entries: Vec<(String, Value)> = Vec::new();
        entries.push(("windows".to_string(), windows_to_document(&self.windows)));
        let r = table(entries);
        assert(r@->Table_0 =~= config_document(self@)->Table_0);
        r
    }

    /// Reads a window plan from a document: a table whose `windows`, if it
    /// has any, is a list of windows. A table without `windows` gives the
    /// default plan.
    pub fn from_document(v: &Value) -> (r: Result<Config, DecodeError>)
        ensures
            config_result(r) == config_in(v@),
    {
        match v {
            Value::Table(entries) => match plan_from_entries(entries) {
                Ok(windows) => Ok(Config { windows }),
                Err(e) => Err(e),
            },
            _ => Err(DecodeError { field: Field::Document }),
        }
    }
}

/// A window that is written into a document is read back as it was.
pub proof fn lemma_window_round_trip(w: TmuxWindowView)
    ensures
        window_in(window_document(w)) == Ok::<TmuxWindowView, DecodeError>(w),
{
    reveal_strlit("name");
    reveal_strlit("command");
    assert("name"@ != "command"@) by {
        assert("name"@.len() != "command"@.len());
    }
    let entries = window_document(w)->Table_0;
    assert(first_entry(entries, "name"@, 0) == 0);
    match w.command {
        Some(c) => {
            assert(first_entry(entries, "command"@, 1) == 1);
            assert(first_entry(entries, "command"@, 0) == 1);
        },
        None => {
            assert(first_entry(entries, "command"@, 1) == 1);
            assert(first_entry(entries, "command"@, 0) == 1);
        },
    }
}

/// The first `n` windows of a plan that is written into documents are read
/// back as they were.
pub proof fn lemma_windows_round_trip(ws: Seq<TmuxWindowView>, n: int)
    requires
        0 <= n <= ws.len(),
    ensures
        windows_in(window_documents(ws), n) == Ok::<Seq<TmuxWindowView>, DecodeError>(
            ws.subrange(0, n),
        ),
    decreases n,
{
    if n > 0 {
        lemma_windows_round_trip(ws, n - 1);
        lemma_window_round_trip(ws[n - 1]);
        assert(ws.subrange(0, n - 1).push(ws[n - 1]) =~= ws.subrange(0, n));
    } else {
        assert(ws.subrange(0, 0) =~= Seq::<TmuxWindowView>::empty());
    }
}

/// A window plan that is written into a document is read back as it was:
/// the same windows in the same order, each with its name and with or
/// without its command, whatever characters the texts hold and also where
/// the plan is empty.
pub proof fn lemma_config_round_trip(c: ConfigView)
    ensures
        config_in(config_document(c)) == Ok::<ConfigView, DecodeError>(c),
{
    let entries = config_document(c)->Table_0;
    assert(first_entry(entries, "windows"@, 0) == 0);
    lemma_windows_round_trip(c.windows, c.windows.len() as int);
    assert(c.windows.subrange(0, c.windows.len() as int) =~= c.windows);
}

/// Where the entry with the key `key` stands first at position `k`, the table
/// gives that entry's value for the key.
pub proof fn lemma_entry_at(entries: Seq<(Seq<char>, ValueView)>, key: Seq<char>, k: int)
    requires
        0 <= k < entries.len(),
        entries[k].0 == key,
        forall|j: int| 0 <= j < k ==> (#[trigger] entries[j]).0 != key,
    ensures
        entry(entries, key) == Some(entries[k].1),
{
    lemma_first_entry_from(entries, key, k, 0);
}

/// Where no entry before position `k` has the key `key` and the one at `k`
/// has it, `first_entry` finds `k` from every position up to `k`.
pub proof fn lemma_first_entry_from(
    entries: Seq<(Seq<char>, ValueView)>,
    key: Seq<char>,
    k: int,
    from: int,
)
    requires
        0 <= from <= k < entries.len(),
        entries[k].0 == key,
        forall|j: int| 0 <= j < k ==> (#[trigger] entries[j]).0 != key,
    ensures
        first_entry(entries, key, from) == k,
    decreases k - from,
{
    if from < k {
        lemma_first_entry_from(entries, key, k, from + 1);
    }
}

/// Where no entry has the key `key`, the table gives nothing for it.
pub proof fn lemma_entry_missing(entries: Seq<(Seq<char>, ValueView)>, key: Seq<char>, from: int)
    requires
        0 <= from <= entries.len(),
        forall|j: int| 0 <= j < entries.len() ==> (#[trigger] entries[j]).0 != key,
    ensures
        first_entry(entries, key, from) == entries.len(),
    decreases entries.len() - from,
{
    if from < entries.len() {
        lemma_entry_missing(entries, key, from + 1);
    }
}

/// The text that stands for a status.
pub open spec fn status_text(s: TodoStatus) -> Seq<char> {
    match s {
        TodoStatus::Pending => "Pending"@,
        TodoStatus::Done => "Done"@,
    }
}

/// The document of a todo: a table with the todo's description, its status
/// and, where it has one, its worktree.
pub open spec fn todo_document(t: TodoView) -> ValueView {
    match t.worktree {
        Some(w) => ValueView::Table(
            seq![
                ("description"@, ValueView::Text(t.description)),
                ("status"@, ValueView::Text(status_text(t.status))),
                ("worktree"@, ValueView::Text(w)),
            ],
        ),
        None => ValueView::Table(
            seq![
                ("description"@, ValueView::Text(t.description)),
                ("status"@, ValueView::Text(status_text(t.status))),
            ],
        ),
    }
}

/// The status that a document names.
pub open spec fn status_in(v: Option<ValueView>) -> Result<TodoStatus, DecodeError> {
    match v {
        Some(ValueView::Text(s)) => if s == "Pending"@ {
            Ok(TodoStatus::Pending)
        } else if s == "Done"@ {
            Ok(TodoStatus::Done)
        } else {
            Err(DecodeError { field: Field::Status })
        },
        _ => Err(DecodeError { field: Field::Status }),
    }
}

/// The todo that a document describes: a table whose `description` is a
/// text, whose `status` is one of the two status texts, and whose `worktree`,
/// if it has one, is a text.
pub open spec fn todo_in(v: ValueView) -> Result<TodoView, DecodeError> {
    match v {
        ValueView::Table(entries) => match entry(entries, "description"@) {
            Some(ValueView::Text(description)) => match status_in(entry(entries, "status"@)) {
                Ok(status) => match entry(entries, "worktree"@) {
                    None => Ok(TodoView { description, status, worktree: None }),
                    Some(ValueView::Text(w)) => Ok(
                        TodoView { description, status, worktree: Some(w) },
                    ),
                    Some(_) => Err(DecodeError { field: Field::Worktree }),
                },
                Err(e) => Err(e),
            },
            _ => Err(DecodeError { field: Field::Description }),
        },
        _ => Err(DecodeError { field: Field::Todo }),
    }
}

/// The documents of a list of todos, in the list's order.
pub open spec fn todo_documents(ts: Seq<TodoView>) -> Seq<ValueView> {
    ts.map_values(|t: TodoView| todo_document(t))
}

/// The todos that the first `n` items of a list describe, or the error of the
/// first item that describes none.
pub open spec fn todos_in(items: Seq<ValueView>, n: int) -> Result<Seq<TodoView>, DecodeError>
    decreases n,
{
    if n <= 0 || n > items.len() {
        Ok(Seq::empty())
    } else {
        match todos_in(items, n - 1) {
            Err(e) => Err(e),
            Ok(ts) => match todo_in(items[n - 1]) {
                Ok(t) => Ok(ts.push(t)),
                Err(e) => Err(e),
            },
        }
    }
}

/// The todos that the entries of a table give: those of the list `todos`, and
/// none where the table has no such entry.
pub open spec fn store_in(entries: Seq<(Seq<char>, ValueView)>) -> Result<
    Seq<TodoView>,
    DecodeError,
> {
    match entry(entries, "todos"@) {
        None => Ok(Seq::empty()),
        Some(ValueView::List(items)) => todos_in(items, items.len() as int),
        Some(_) => Err(DecodeError { field: Field::Todos }),
    }
}

/// The document of a storage backend: the text `Local`, or a table whose
/// `Github` is the table of the board's owner, repository and number.
pub open spec fn backend_document(b: StorageBackendView) -> ValueView {
    match b {
        StorageBackendView::Local => ValueView::Text("Local"@),
        StorageBackendView::Github { owner, repo, project_number } => ValueView::Table(
            seq![
                (
                    "Github"@,
                    ValueView::Table(
                        seq![
                            ("owner"@, ValueView::Text(owner)),
                            ("repo"@, ValueView::Text(repo)),
                            ("project_number"@, ValueView::Integer(project_number as i64)),
                        ],
                    ),
                ),
            ],
        ),
    }
}

/// The board that the entries of a table describe.
pub open spec fn board_in(entries: Seq<(Seq<char>, ValueView)>) -> Result<
    StorageBackendView,
    DecodeError,
> {
    match entry(entries, "owner"@) {
        Some(ValueView::Text(owner)) => match entry(entries, "repo"@) {
            Some(ValueView::Text(repo)) => match entry(entries, "project_number"@) {
                Some(ValueView::Integer(n)) => if 0 <= n <= u32::MAX {
                    Ok(StorageBackendView::Github { owner, repo, project_number: n as u32 })
                } else {
                    Err(DecodeError { field: Field::ProjectNumber })
                },
                _ => Err(DecodeError { field: Field::ProjectNumber }),
            },
            _ => Err(DecodeError { field: Field::Repo }),
        },
        _ => Err(DecodeError { field: Field::Owner }),
    }
}

/// The storage backend that a document names; the local one where there is
/// no document.
pub open spec fn backend_in(v: Option<ValueView>) -> Result<StorageBackendView, DecodeError> {
    match v {
        None => Ok(StorageBackendView::Local),
        Some(ValueView::Text(s)) => if s == "Local"@ {
            Ok(StorageBackendView::Local)
        } else {
            Err(DecodeError { field: Field::StorageBackend })
        },
        Some(ValueView::Table(entries)) => match entry(entries, "Github"@) {
            Some(ValueView::Table(board)) => board_in(board),
            _ => Err(DecodeError { field: Field::StorageBackend }),
        },
        Some(_) => Err(DecodeError { field: Field::StorageBackend }),
    }
}

/// The text that a document gives for a part of the settings; the empty text
/// where there is no document.
pub open spec fn text_in(v: Option<ValueView>, field: Field) -> Result<Seq<char>, DecodeError> {
    match v {
        None => Ok(Seq::empty()),
        Some(ValueView::Text(s)) => Ok(s),
        Some(_) => Err(DecodeError { field }),
    }
}

/// The document of the settings with the todos: a table with the name, the
/// naming pattern, the storage backend, the list of the todos and the list of
/// the windows.
pub open spec fn app_config_document(c: AppConfigView) -> ValueView {
    ValueView::Table(
        seq![
            ("name"@, ValueView::Text(c.name)),
            ("worktree_naming"@, ValueView::Text(c.worktree_naming)),
            ("storage_backend"@, backend_document(c.storage_backend)),
            ("todos"@, ValueView::List(todo_documents(c.todos))),
            ("windows"@, ValueView::List(window_documents(c.windows))),
        ],
    )
}

/// The settings with the todos that a document describes. A table without
/// todos gives an empty list, one without windows the default plan, one
/// without storage backend the local one, and one without a text an empty
/// text.
pub open spec fn app_config_in(v: ValueView) -> Result<AppConfigView, DecodeError> {
    match v {
        ValueView::Table(entries) => match text_in(entry(entries, "name"@), Field::Name) {
            Ok(name) => match text_in(
                entry(entries, "worktree_naming"@),
                Field::WorktreeNaming,
            ) {
                Ok(worktree_naming) => match backend_in(entry(entries, "storage_backend"@)) {
                    Ok(storage_backend) => match store_in(entries) {
                        Ok(todos) => match plan_in(entries) {
                            Ok(windows) => Ok(
                                AppConfigView {
                                    name,
                                    worktree_naming,
                                    storage_backend,
                                    todos,
                                    windows,
                                },
                            ),
                            Err(e) => Err(e),
                        },
                        Err(e) => Err(e),
                    },
                    Err(e) => Err(e),
                },
                Err(e) => Err(e),
            },
            Err(e) => Err(e),
        },
        _ => Err(DecodeError { field: Field::Document }),
    }
}

/// The view of the result of reading a todo.
pub open spec fn todo_result(r: Result<Todo, DecodeError>) -> Result<TodoView, DecodeError> {
    match r {
        Ok(t) => Ok(t@),
        Err(e) => Err(e),
    }
}

/// The view of the result of reading a list of todos.
pub open spec fn todos_result(r: Result<Vec<Todo>, DecodeError>) -> Result<
    Seq<TodoView>,
    DecodeError,
> {
    match r {
        Ok(ts) => Ok(todo_views(ts@)),
        Err(e) => Err(e),
    }
}

/// The view of the result of reading a storage backend.
pub open spec fn backend_result(r: Result<StorageBackend, DecodeError>) -> Result<
    StorageBackendView,
    DecodeError,
> {
    match r {
        Ok(b) => Ok(b@),
        Err(e) => Err(e),
    }
}

/// The view of the result of reading the settings.
pub open spec fn app_config_result(r: Result<AppConfig, DecodeError>) -> Result<
    AppConfigView,
    DecodeError,
> {
    match r {
        Ok(c) => Ok(c@),
        Err(e) => Err(e),
    }
}

/// The view of an optional node.
pub open spec fn opt_value(o: Option<&Value>) -> Option<ValueView> {
    match o {
        Some(v) => Some(v@),
        None => None,
    }
}

/// Writes a todo into a document.
pub fn todo_to_document(t: &Todo) -> (r: Value)
    ensures
        r@ == todo_document(t@),
{
    let mut entries: Vec<(String, Value)> = Vec::new();
    entries.push(("description".to_string(), text(t.description.as_str())));
    let status = match t.status {
        TodoStatus::Pending => text("Pending"),
        TodoStatus::Done => text("Done"),
    };
    entries.push(("status".to_string(), status));
    match &t.worktree {
        Some(w) => {
            entries.push(("worktree".to_string(), text(w.as_str())));
        },
        None => {},
    }
    let r = table(entries);
    assert(r@->Table_0 =~= todo_document(t@)->Table_0);
    r
}

/// Reads the status that a document names.
fn status_from(v: Option<&Value>) -> (r: Result<TodoStatus, DecodeError>)
    ensures
        r == status_in(opt_value(v)),
{
    match v {
        Some(Value::Text(s)) => {
            if same_text(s.as_str(), "Pending") {
                Ok(TodoStatus::Pending)
            } else if same_text(s.as_str(), "Done") {
                Ok(TodoStatus::Done)
            } else {
                Err(DecodeError { field: Field::Status })
            }
        },
        _ => Err(DecodeError { field: Field::Status }),
    }
}

/// Reads a todo from a document.
pub fn todo_from_document(v: &Value) -> (r: Result<Todo, DecodeError>)
    ensures
        todo_result(r) == todo_in(v@),
{
    match v {
        Value::Table(entries) => {
            let description = match get(entries, "description") {
                Some(Value::Text(d)) => d.clone(),
                _ => {
                    return Err(DecodeError { field: Field::Description });
                },
            };
            let status = match status_from(get(entries, "status")) {
                Ok(s) => s,
                Err(e) => {
                    return Err(e);
                },
            };
            match get(entries, "worktree") {
                None => Ok(Todo { description, status, worktree: None }),
                Some(Value::Text(w)) => Ok(Todo { description, status, worktree: Some(w.clone()) }),
                Some(_) => Err(DecodeError { field: Field::Worktree }),
            }
        },
        _ => Err(DecodeError { field: Field::Todo }),
    }
}

/// Writes a list of todos into a list of documents.
pub fn todos_to_document(ts: &Vec<Todo>) -> (r: Value)
    ensures
        r@ == ValueView::List(todo_documents(todo_views(ts@))),
{
    let mut items: Vec<Value> = Vec::new();
    let mut i: usize = 0;
    while i < ts.len()
        invariant
            i <= ts.len(),
            items.len() == i,
            forall|j: int| 0 <= j < i ==> (#[trigger] items[j])@ == todo_document(ts[j]@),
        decreases ts.len() - i,
    {
        items.push(todo_to_document(&ts[i]));
        i += 1;
    }
    let r = list(items);
    assert(r@->List_0 =~= todo_documents(todo_views(ts@)));
    r
}

/// Once the first `n` items fail to describe todos, so do the first `m` for
/// every larger `m`, with the same error.
pub proof fn lemma_todos_error_stays(items: Seq<ValueView>, n: int, m: int)
    requires
        0 <= n <= m <= items.len(),
        todos_in(items, n) is Err,
    ensures
        todos_in(items, m) == todos_in(items, n),
    decreases m - n,
{
    if n < m {
        lemma_todos_error_stays(items, n, m - 1);
    }
}

/// Reads a list of todos from the items of a list.
pub fn todos_from_items(items: &Vec<Value>) -> (r: Result<Vec<Todo>, DecodeError>)
    ensures
        todos_result(r) == todos_in((Value::List(*items))@->List_0, items.len() as int),
{
    let ghost views = (Value::List(*items))@->List_0;
    let mut out: Vec<Todo> = Vec::new();
    let mut i: usize = 0;
    assert(todo_views(out@) =~= Seq::<TodoView>::empty());
    while i < items.len()
        invariant
            i <= items.len(),
            views == (Value::List(*items))@->List_0,
            views.len() == items.len(),
            todos_in(views, i as int) == Ok::<Seq<TodoView>, DecodeError>(todo_views(out@)),
        decreases items.len() - i,
    {
        assert(views[i as int] == items@[i as int]@);
        match todo_from_document(&items[i]) {
            Ok(t) => {
                let ghost before = todo_views(out@);
                out.push(t);
                assert(todo_views(out@) =~= before.push(t@));
            },
            Err(e) => {
                proof {
                    lemma_todos_error_stays(views, i + 1, items.len() as int);
                }
                return Err(e);
            },
        }
        i += 1;
    }
    Ok(out)
}

/// Writes a storage backend into a document.
pub fn backend_to_document(b: &StorageBackend) -> (r: Value)
    ensures
        r@ == backend_document(b@),
{
    match b {
        StorageBackend::Local => text("Local"),
        StorageBackend::Github { owner, repo, project_number } => {
            let mut board: Vec<(String, Value)> = Vec::new();
            board.push(("owner".to_string(), text(owner.as_str())));
            board.push(("repo".to_string(), text(repo.as_str())));
            board.push(("project_number".to_string(), Value::Integer(*project_number as i64)));
            let inner = table(board);
            let mut entries: Vec<(String, Value)> = Vec::new();
            entries.push(("Github".to_string(), inner));
            let r = table(entries);
            assert(inner@->Table_0 =~= backend_document(b@)->Table_0[0].1->Table_0);
            assert(r@->Table_0 =~= backend_document(b@)->Table_0);
            r
        },
    }
}

/// Reads the board that the entries of a table describe.
fn board_from(entries: &Vec<(String, Value)>) -> (r: Result<StorageBackend, DecodeError>)
    ensures
        backend_result(r) == board_in((Value::Table(*entries))@->Table_0),
{
    let owner = match get(entries, "owner") {
        Some(Value::Text(owner)) => owner.clone(),
        _ => {
            return Err(DecodeError { field: Field::Owner });
        },
    };
    let repo = match get(entries, "repo") {
        Some(Value::Text(repo)) => repo.clone(),
        _ => {
            return Err(DecodeError { field: Field::Repo });
        },
    };
    match get(entries, "project_number") {
        Some(Value::Integer(n)) => {
            if 0 <= *n && *n <= 0xffff_ffff {
                Ok(StorageBackend::Github { owner, repo, project_number: *n as u32 })
            } else {
                Err(DecodeError { field: Field::ProjectNumber })
            }
        },
        _ => Err(DecodeError { field: Field::ProjectNumber }),
    }
}

/// Reads the storage backend that a document names.
pub fn backend_from_document(v: Option<&Value>) -> (r: Result<StorageBackend, DecodeError>)
    ensures
        backend_result(r) == backend_in(opt_value(v)),
{
    match v {
        None => Ok(StorageBackend::Local),
        Some(Value::Text(s)) => {
            if same_text(s.as_str(), "Local") {
                Ok(StorageBackend::Local)
            } else {
                Err(DecodeError { field: Field::StorageBackend })
            }
        },
        Some(Value::Table(entries)) => match get(entries, "Github") {
            Some(Value::Table(board)) => board_from(board),
            _ => Err(DecodeError { field: Field::StorageBackend }),
        },
        Some(_) => Err(DecodeError { field: Field::StorageBackend }),
    }
}

/// Reads the text that a document gives for a part of the settings.
fn text_from(v: Option<&Value>, field: Field) -> (r: Result<String, DecodeError>)
    ensures
        match r {
            Ok(s) => text_in(opt_value(v), field) == Ok::<Seq<char>, DecodeError>(s@),
            Err(e) => text_in(opt_value(v), field) == Err::<Seq<char>, DecodeError>(e),
        },
{
    match v {
        None => Ok(String::new()),
        Some(Value::Text(s)) => Ok(s.clone()),
        Some(_) => Err(DecodeError { field }),
    }
}

impl AppConfig {
    /// Writes the settings with the todos into a document.
    pub fn to_document(&self) -> (r: Value)
        ensures
            r@ == app_config_document(self@),
    {
        let mut entries: Vec<(String, Value)> = Vec::new();
        entries.push(("name".to_string(), text(self.name.as_str())));
        entries.push(("worktree_naming".to_string(), text(self.worktree_naming.as_str())));
        entries.push(("storage_backend".to_string(), backend_to_document(&self.storage_backend)));
        entries.push(("todos".to_string(), todos_to_document(&self.todos)));
        entries.push(("windows".to_string(), windows_to_document(&self.windows)));
        let r = table(entries);
        assert(r@->Table_0 =~= app_config_document(self@)->Table_0);
        r
    }

    /// Reads the settings with the todos from a document.
    pub fn from_document(v: &Value) -> (r: Result<AppConfig, DecodeError>)
        ensures
            app_config_result(r) == app_config_in(v@),
    {
        match v {
            Value::Table(entries) => {
                let name = match text_from(get(entries, "name"), Field::Name) {
                    Ok(s) => s,
                    Err(e) => {
                        return Err(e);
                    },
                };
                let worktree_naming = match text_from(
                    get(entries, "worktree_naming"),
                    Field::WorktreeNaming,
                ) {
                    Ok(s) => s,
                    Err(e) => {
                        return Err(e);
                    },
                };
                let storage_backend = match backend_from_document(
                    get(entries, "storage_backend"),
                ) {
                    Ok(b) => b,
                    Err(e) => {
                        return Err(e);
                    },
                };
                let todos = match get(entries, "todos") {
                    None => {
                        let v: Vec<Todo> = Vec::new();
                        assert(todo_views(v@) =~= Seq::<TodoView>::empty());
                        v
                    },
                    Some(Value::List(items)) => match todos_from_items(items) {
                        Ok(ts) => ts,
                        Err(e) => {
                            return Err(e);
                        },
                    },
                    Some(_) => {
                        return Err(DecodeError { field: Field::Todos });
                    },
                };
                match plan_from_entries(entries) {
                    Ok(windows) => Ok(
                        AppConfig { name, worktree_naming, storage_backend, todos, windows },
                    ),
                    Err(e) => Err(e),
                }
            },
            _ => Err(DecodeError { field: Field::Document }),
        }
    }
}

/// A todo that is written into a document is read back as it was.
pub proof fn lemma_todo_round_trip(t: TodoView)
    ensures
        todo_in(todo_document(t)) == Ok::<TodoView, DecodeError>(t),
{
    reveal_strlit("description");
    reveal_strlit("status");
    reveal_strlit("worktree");
    reveal_strlit("Pending");
    reveal_strlit("Done");
    assert("description"@.len() == 11 && "status"@.len() == 6 && "worktree"@.len() == 8);
    assert("Pending"@.len() != "Done"@.len());
    let entries = todo_document(t)->Table_0;
    lemma_entry_at(entries, "description"@, 0);
    lemma_entry_at(entries, "status"@, 1);
    match t.worktree {
        Some(w) => {
            lemma_entry_at(entries, "worktree"@, 2);
        },
        None => {
            lemma_entry_missing(entries, "worktree"@, 0);
        },
    }
}

/// The first `n` todos of a list that is written into documents are read back
/// as they were.
pub proof fn lemma_todos_round_trip(ts: Seq<TodoView>, n: int)
    requires
        0 <= n <= ts.len(),
    ensures
        todos_in(todo_documents(ts), n) == Ok::<Seq<TodoView>, DecodeError>(ts.subrange(0, n)),
    decreases n,
{
    if n > 0 {
        lemma_todos_round_trip(ts, n - 1);
        lemma_todo_round_trip(ts[n - 1]);
        assert(ts.subrange(0, n - 1).push(ts[n - 1]) =~= ts.subrange(0, n));
    } else {
        assert(ts.subrange(0, 0) =~= Seq::<TodoView>::empty());
    }
}

/// A storage backend that is written into a document is read back as it was.
pub proof fn lemma_backend_round_trip(b: StorageBackendView)
    ensures
        backend_in(Some(backend_document(b))) == Ok::<StorageBackendView, DecodeError>(b),
{
    reveal_strlit("owner");
    reveal_strlit("repo");
    reveal_strlit("project_number");
    assert("owner"@.len() == 5 && "repo"@.len() == 4 && "project_number"@.len() == 14);
    match b {
        StorageBackendView::Local => {},
        StorageBackendView::Github { owner, repo, project_number } => {
            let outer = backend_document(b)->Table_0;
            lemma_entry_at(outer, "Github"@, 0);
            let board = outer[0].1->Table_0;
            lemma_entry_at(board, "owner"@, 0);
            lemma_entry_at(board, "repo"@, 1);
            lemma_entry_at(board, "project_number"@, 2);
        },
    }
}

/// The settings with the todos that are written into a document are read
/// back as they were: the same todos in the same order, each with its
/// description, its status and with or without its link, and the same
/// windows, whatever characters the texts hold and also where a list is
/// empty.
pub proof fn lemma_app_config_round_trip(c: AppConfigView)
    ensures
        app_config_in(app_config_document(c)) == Ok::<AppConfigView, DecodeError>(c),
{
    reveal_strlit("name");
    reveal_strlit("worktree_naming");
    reveal_strlit("storage_backend");
    reveal_strlit("todos");
    reveal_strlit("windows");
    assert("name"@.len() == 4 && "worktree_naming"@.len() == 15 && "storage_backend"@.len() == 15
        && "todos"@.len() == 5 && "windows"@.len() == 7);
    assert("worktree_naming"@[0] != "storage_backend"@[0]);
    let entries = app_config_document(c)->Table_0;
    lemma_entry_at(entries, "name"@, 0);
    lemma_entry_at(entries, "worktree_naming"@, 1);
    lemma_entry_at(entries, "storage_backend"@, 2);
    lemma_entry_at(entries, "todos"@, 3);
    lemma_entry_at(entries, "windows"@, 4);
    lemma_backend_round_trip(c.storage_backend);
    lemma_todos_round_trip(c.todos, c.todos.len() as int);
    assert(c.todos.subrange(0, c.todos.len() as int) =~= c.todos);
    lemma_windows_round_trip(c.windows, c.windows.len() as int);
    assert(c.windows.subrange(0, c.windows.len() as int) =~= c.windows);
}

/// Why settings could not be loaded.
#[derive(Debug, Clone, Copy, PartialEq, Eq, Structural)]
pub enum LoadError {
    /// There is no file to load from.
    Missing,
    /// The file holds a document that does not describe the settings.
    Invalid(DecodeError),
}

impl LoadError {
    /// The one-line message of an error.
    pub open spec fn message_of(self) -> Seq<char> {
        match self {
            LoadError::Missing => "Config file does not exist"@,
            LoadError::Invalid(_) => "Failed to parse config file"@,
        }
    }

    /// The one-line message of this error.
    pub fn message(&self) -> (r: String)
        ensures
            r@ == self.message_of(),
    {
        match self {
            LoadError::Missing => "Config file does not exist".to_string(),
            LoadError::Invalid(_) => "Failed to parse config file".to_string(),
        }
    }
}

/// What loading the window plan from a named file yields, given the document
/// of that file if the file is there.
pub open spec fn loaded_from_path(document: Option<ValueView>) -> Result<ConfigView, LoadError> {
    match document {
        None => Err(LoadError::Missing),
        Some(v) => match config_in(v) {
            Ok(c) => Ok(c),
            Err(e) => Err(LoadError::Invalid(e)),
        },
    }
}

/// What loading the window plan from its usual file yields, given the
/// document of that file if the file is there: the plan, and whether it is
/// yet to be written to the file.
pub open spec fn loaded(document: Option<ValueView>) -> Result<(ConfigView, bool), LoadError> {
    match document {
        None => Ok((ConfigView { windows: default_plan() }, true)),
        Some(v) => match config_in(v) {
            Ok(c) => Ok((c, false)),
            Err(e) => Err(LoadError::Invalid(e)),
        },
    }
}

/// What loading the settings with the todos yields, given the document of
/// their file if the file is there.
pub open spec fn store_loaded(document: Option<ValueView>) -> Result<AppConfigView, LoadError> {
    match document {
        None => Ok(default_settings()),
        Some(v) => match app_config_in(v) {
            Ok(c) => Ok(c),
            Err(e) => Err(LoadError::Invalid(e)),
        },
    }
}

/// The file of the window plan below the directory `dir`.
pub open spec fn config_path_in(dir: Seq<char>) -> Seq<char> {
    crate::path::join_of(crate::path::join_of(dir, "lfg"@), "config.toml"@)
}

impl Config {
    /// Loads the window plan from a named file, given the document of that
    /// file if the file is there. A missing file is an error.
    pub fn load_from_path(document: Option<&Value>) -> (r: Result<Config, LoadError>)
        ensures
            match r {
                Ok(c) => loaded_from_path(opt_value(document)) == Ok::<ConfigView, LoadError>(c@),
                Err(e) => loaded_from_path(opt_value(document)) == Err::<ConfigView, LoadError>(e),
            },
    {
        match document {
            None => Err(LoadError::Missing),
            Some(v) => match Config::from_document(v) {
                Ok(c) => Ok(c),
                Err(e) => Err(LoadError::Invalid(e)),
            },
        }
    }

    /// Loads the window plan from its usual file, given the document of that
    /// file if the file is there. A missing file gives the default plan, which
    /// is then to be written to the file.
    pub fn load(document: Option<&Value>) -> (r: Result<(Config, bool), LoadError>)
        ensures
            match r {
                Ok((c, fresh)) => loaded(opt_value(document)) == Ok::<(ConfigView, bool), LoadError>(
                    (c@, fresh),
                ),
                Err(e) => loaded(opt_value(document)) == Err::<(ConfigView, bool), LoadError>(e),
            },
    {
        match document {
            None => Ok((Config::default(), true)),
            Some(v) => match Config::from_document(v) {
                Ok(c) => Ok((c, false)),
                Err(e) => Err(LoadError::Invalid(e)),
            },
        }
    }

    /// The file of the window plan below the user's configuration directory
    /// `config_dir`.
    pub fn config_path(config_dir: &str) -> (r: String)
        ensures
            r@ == config_path_in(config_dir@),
    {
        let dir = crate::path::join(config_dir, "lfg");
        crate::path::join(dir.as_str(), "config.toml")
    }
}

impl AppConfig {
    /// Loads the settings with the todos, given the document of their file if
    /// the file is there. A missing file gives the default settings and no
    /// todos.
    pub fn load(document: Option<&Value>) -> (r: Result<AppConfig, LoadError>)
        ensures
            match r {
                Ok(c) => store_loaded(opt_value(document)) == Ok::<AppConfigView, LoadError>(c@),
                Err(e) => store_loaded(opt_value(document)) == Err::<AppConfigView, LoadError>(e),
            },
    {
        match document {
            None => Ok(AppConfig::default()),
            Some(v) => match AppConfig::from_document(v) {
                Ok(c) => Ok(c),
                Err(e) => Err(LoadError::Invalid(e)),
            },
        }
    }
}

} // verus!
