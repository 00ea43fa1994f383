use lfg::config::{AppConfig, TodoStatus};
use lfg::git::Worktree;
use lfg::layout::Rect;
use lfg::tui::{App, Command, Event, InputMode, Key, Pending, Reply};

fn worktree(name: &str) -> Worktree {
    Worktree { name: name.to_string(), path: format!("/repo/{}", name), branch: name.to_string() }
}

/// A store whose list reads, from the top, as the given names.
fn store(names: &[&str]) -> AppConfig {
    let mut config = AppConfig::default();
    for name in names.iter().rev() {
        config.add_todo(format!("todo {}", name), name.to_string());
    }
    config
}

fn app(todos: &[&str], worktrees: &[&str]) -> App {
    App::new(store(todos), worktrees.iter().map(|n| worktree(n)).collect(), None, None)
}

fn press(app: &mut App, key: Key) -> Command {
    app.handle_event(Event::Key(key))
}

fn type_text(app: &mut App, text: &str) {
    for c in text.chars() {
        assert!(matches!(press(app, Key::Char(c)), Command::Wait));
    }
}

#[test]
fn derived_name_of_a_description() {
    assert_eq!(App::dasherize("Add Login  Flow"), "add-login-flow");
    assert_eq!(App::dasherize("  Fix\tBUG #12 "), "fix-bug-#12");
    assert_eq!(App::dasherize(""), "");
}

#[test]
fn opens_on_the_first_todo_or_on_the_callers_worktree() {
    let first = app(&["a", "b", "c"], &["a", "b", "c"]);
    assert_eq!(first.selected, Some(0));
    assert!(!first.button_selected);
    assert_eq!(first.input_mode, InputMode::Normal);
    assert_eq!(first.pending, Pending::Idle);
    assert_eq!(first.list_area, Rect { x: 0, y: 0, width: 0, height: 0 });

    let here = App::new(store(&["a", "b", "c"]), Vec::new(), Some("b".to_string()), None);
    assert_eq!(here.selected, Some(1));
    let elsewhere = App::new(store(&["a", "b"]), Vec::new(), Some("zzz".to_string()), None);
    assert_eq!(elsewhere.selected, Some(0));
    let empty = App::new(store(&[]), Vec::new(), Some("a".to_string()), None);
    assert_eq!(empty.selected, None);
    assert!(!empty.button_selected);
}

#[test]
fn focus_ring_boundaries() {
    let mut ring = app(&["a", "b", "c"], &[]);
    ring.next();
    ring.next();
    assert_eq!(ring.selected, Some(2));
    ring.next();
    assert_eq!(ring.selected, None);
    assert!(ring.button_selected);
    ring.previous();
    assert_eq!(ring.selected, Some(2));
    assert!(!ring.button_selected);
    ring.next();
    ring.next();
    assert_eq!(ring.selected, Some(0));
    ring.previous();
    assert!(ring.button_selected);
    assert_eq!(ring.selected, None);
    ring.previous();
    assert_eq!(ring.selected, Some(2));
    ring.previous();
    assert_eq!(ring.selected, Some(1));
}

#[test]
fn focus_on_an_empty_list_is_pinned_to_the_button() {
    let mut empty = app(&[], &[]);
    empty.next();
    assert!(empty.button_selected);
    assert_eq!(empty.selected, None);
    for _ in 0..3 {
        empty.previous();
        assert!(empty.button_selected);
        assert_eq!(empty.selected, None);
        empty.next();
        assert!(empty.button_selected);
        assert_eq!(empty.selected, None);
        empty.toggle_button_focus();
        assert!(empty.button_selected);
        assert_eq!(empty.selected, None);
    }
    let mut up_first = app(&[], &[]);
    up_first.previous();
    assert!(up_first.button_selected);
}

#[test]
fn toggle_swaps_between_list_and_button() {
    let mut a = app(&["a", "b"], &[]);
    a.next();
    assert_eq!(a.selected, Some(1));
    a.toggle_button_focus();
    assert!(a.button_selected);
    assert_eq!(a.focused(), None);
    assert!(a.target().is_none());
    a.toggle_button_focus();
    assert!(!a.button_selected);
    assert_eq!(a.selected, Some(1));
    assert_eq!(a.focused(), Some(1));

    // Up and down onto the button forget the position.
    a.next();
    assert!(a.button_selected);
    assert_eq!(a.selected, None);
    a.toggle_button_focus();
    assert!(!a.button_selected);
    assert_eq!(a.selected, Some(0));

    // From the button, up and down go to the ends of the list, whatever
    // position is remembered.
    let mut b = app(&["a", "b", "c"], &[]);
    b.next();
    b.toggle_button_focus();
    b.next();
    assert_eq!(b.focused(), Some(0));
    b.next();
    b.toggle_button_focus();
    b.previous();
    assert_eq!(b.focused(), Some(2));
}

#[test]
fn the_toggle_keeps_the_position_at_every_todo() {
    for i in 0..4 {
        let mut a = app(&["a", "b", "c", "d"], &["a", "b", "c", "d"]);
        for _ in 0..i {
            a.next();
        }
        assert_eq!(a.focused(), Some(i));
        press(&mut a, Key::Tab);
        assert!(a.button_selected);
        assert_eq!(a.focused(), None);
        assert!(matches!(press(&mut a, Key::Char('d')), Command::Wait));
        assert_eq!(a.pending, Pending::Idle);
        press(&mut a, Key::Tab);
        assert!(!a.button_selected);
        assert_eq!(a.focused(), Some(i));
        assert!(a.is_well_formed());
    }
}

#[test]
fn keys_of_the_normal_mode() {
    let mut a = app(&["a", "b"], &["a", "b"]);
    assert!(matches!(press(&mut a, Key::Char('q')), Command::Quit));
    assert!(matches!(press(&mut a, Key::Esc), Command::Quit));
    assert!(matches!(press(&mut a, Key::Char('j')), Command::Wait));
    assert_eq!(a.selected, Some(1));
    assert!(matches!(press(&mut a, Key::Up), Command::Wait));
    assert_eq!(a.selected, Some(0));
    assert!(matches!(press(&mut a, Key::Down), Command::Wait));
    assert!(matches!(press(&mut a, Key::Char('k')), Command::Wait));
    assert_eq!(a.selected, Some(0));
    assert!(matches!(press(&mut a, Key::Tab), Command::Wait));
    assert!(a.button_selected);
    assert!(matches!(press(&mut a, Key::Other), Command::Wait));
    assert!(matches!(press(&mut a, Key::Char('x')), Command::Wait));
    assert!(a.button_selected);
    assert_eq!(a.input_mode, InputMode::Normal);
}

#[test]
fn help_opens_and_closes() {
    let mut a = app(&["a"], &[]);
    press(&mut a, Key::Char('?'));
    assert_eq!(a.input_mode, InputMode::Help);
    assert!(matches!(press(&mut a, Key::Char('j')), Command::Wait));
    assert_eq!(a.selected, Some(0));
    assert_eq!(a.input_mode, InputMode::Help);
    press(&mut a, Key::Char('q'));
    assert_eq!(a.input_mode, InputMode::Normal);
    press(&mut a, Key::Char('?'));
    press(&mut a, Key::Char('?'));
    assert_eq!(a.input_mode, InputMode::Normal);
    press(&mut a, Key::Char('?'));
    press(&mut a, Key::Esc);
    assert_eq!(a.input_mode, InputMode::Normal);
}

#[test]
fn enter_starts_the_session_of_the_focused_todo() {
    let mut a = app(&["a", "b"], &["b", "a"]);
    match press(&mut a, Key::Enter) {
        Command::StartSession { name, path } => {
            assert_eq!(name, "a");
            assert_eq!(path, "/repo/a");
        }
        other => panic!("unexpected {:?}", other),
    }
    assert_eq!(a.pending, Pending::Idle);
}

#[test]
fn a_dangling_link_is_not_actionable() {
    let mut a = app(&["gone", "b"], &["b"]);
    assert!(matches!(press(&mut a, Key::Enter), Command::Wait));
    assert!(matches!(press(&mut a, Key::Char('d')), Command::Wait));
    assert!(matches!(press(&mut a, Key::Delete), Command::Wait));
    assert_eq!(a.input_mode, InputMode::Normal);
    assert_eq!(a.pending, Pending::Idle);
    assert!(a.error_message.is_none());
    assert!(a.target().is_none());
}

#[test]
fn enter_on_the_button_opens_the_form() {
    let mut a = app(&["a"], &["a"]);
    press(&mut a, Key::Tab);
    assert!(matches!(press(&mut a, Key::Enter), Command::Wait));
    assert_eq!(a.input_mode, InputMode::CreatingWorktree);
    assert!(matches!(press(&mut a, Key::Esc), Command::Wait));
    assert_eq!(a.input_mode, InputMode::Normal);
    assert!(matches!(press(&mut a, Key::Char('d')), Command::Wait));
    assert_eq!(a.pending, Pending::Idle);
}

#[test]
fn typing_derives_the_worktree_name() {
    let mut a = app(&[], &[]);
    press(&mut a, Key::Char('n'));
    assert_eq!(a.input_mode, InputMode::CreatingWorktree);
    assert!(!a.can_create_worktree());
    type_text(&mut a, "Add Login  Flow");
    assert_eq!(a.todo_input, "Add Login  Flow");
    assert_eq!(a.worktree_input, "add-login-flow");
    assert!(a.can_create_worktree());
    press(&mut a, Key::Backspace);
    assert_eq!(a.todo_input, "Add Login  Flo");
    assert_eq!(a.worktree_input, "add-login-flo");
    for _ in 0..20 {
        press(&mut a, Key::Backspace);
    }
    assert_eq!(a.todo_input, "");
    assert_eq!(a.worktree_input, "");
    type_text(&mut a, "q?jk");
    assert_eq!(a.todo_input, "q?jk");
    assert_eq!(a.input_mode, InputMode::CreatingWorktree);
}

#[test]
fn a_blank_form_is_not_submitted() {
    let mut a = app(&[], &[]);
    press(&mut a, Key::Char('c'));
    type_text(&mut a, "   ");
    assert!(matches!(press(&mut a, Key::Enter), Command::Wait));
    assert_eq!(a.input_mode, InputMode::CreatingWorktree);
    assert_eq!(a.pending, Pending::Idle);
    assert_eq!(
        a.error_message,
        Some("Description and worktree name cannot be empty".to_string())
    );
    press(&mut a, Key::Char('x'));
    assert_eq!(a.error_message, None);
}

#[test]
fn creating_a_worktree_step_by_step() {
    let mut a = app(&["old"], &["old"]);
    press(&mut a, Key::Char('n'));
    type_text(&mut a, " Fix Bug ");
    match press(&mut a, Key::Enter) {
        Command::CreateWorktree { name, branch } => {
            assert_eq!(name, "fix-bug");
            assert_eq!(branch, "fix-bug");
        }
        other => panic!("unexpected {:?}", other),
    }
    assert_eq!(a.pending, Pending::Create);
    assert!(matches!(press(&mut a, Key::Char('x')), Command::Wait));
    assert_eq!(a.todo_input, " Fix Bug ");

    match a.handle_reply(Reply::Done) {
        Command::Save { app_config } => {
            assert_eq!(app_config.todos.len(), 2);
            assert_eq!(app_config.todos[0].description, "Fix Bug");
            assert_eq!(app_config.todos[0].worktree, Some("fix-bug".to_string()));
            assert_eq!(app_config.todos[0].status, TodoStatus::Pending);
            assert_eq!(app_config.todos[1].description, "todo old");
            assert_eq!(app_config.windows.len(), 4);
        }
        other => panic!("unexpected {:?}", other),
    }
    assert_eq!(a.pending, Pending::SaveAfterCreate);
    assert_eq!(a.app_config.todos.len(), 1);

    assert!(matches!(a.handle_reply(Reply::Done), Command::Refresh));
    assert_eq!(a.pending, Pending::RefreshAfterCreate);
    assert_eq!(a.app_config.todos.len(), 2);
    assert_eq!(a.app_config.todos[0].description, "Fix Bug");
    assert_eq!(a.app_config.todos[0].worktree, Some("fix-bug".to_string()));
    assert_eq!(a.app_config.todos[0].status, TodoStatus::Pending);
    assert_eq!(a.app_config.todos[1].description, "todo old");

    let snapshot = Reply::Snapshot {
        worktrees: vec![worktree("old"), worktree("fix-bug")],
        app_config: a.app_config.clone(),
    };
    assert!(matches!(a.handle_reply(snapshot), Command::Wait));
    assert_eq!(a.pending, Pending::Idle);
    assert_eq!(a.input_mode, InputMode::Normal);
    assert_eq!(a.todo_input, "");
    assert_eq!(a.worktree_input, "");
    assert_eq!(a.selected, Some(1));
    assert!(!a.button_selected);
    assert_eq!(a.worktrees.len(), 2);
}

#[test]
fn a_failed_creation_leaves_the_form_open() {
    let mut a = app(&[], &[]);
    press(&mut a, Key::Char('n'));
    type_text(&mut a, "x");
    press(&mut a, Key::Enter);
    assert!(matches!(a.handle_reply(Reply::Failed("already exists".to_string())), Command::Wait));
    assert_eq!(a.input_mode, InputMode::CreatingWorktree);
    assert_eq!(a.pending, Pending::Idle);
    assert_eq!(a.error_message, Some("Failed to create worktree: already exists".to_string()));
    assert_eq!(a.todo_input, "x");
    assert_eq!(a.app_config.todos.len(), 0);
}

#[test]
fn a_failed_save_after_a_creation_is_reported() {
    let mut a = app(&[], &[]);
    press(&mut a, Key::Char('n'));
    type_text(&mut a, "x");
    press(&mut a, Key::Enter);
    assert!(matches!(a.handle_reply(Reply::Done), Command::Save { .. }));
    assert!(matches!(a.handle_reply(Reply::Failed("disk full".to_string())), Command::Wait));
    assert_eq!(a.input_mode, InputMode::Normal);
    assert_eq!(a.error_message, Some("disk full".to_string()));
    assert_eq!(a.pending, Pending::Idle);
    assert_eq!(a.app_config.todos.len(), 0);
    assert_eq!(a.todo_input, "");
    assert_eq!(a.worktree_input, "");
}

#[test]
fn a_failed_save_after_a_deletion_keeps_the_todo_open() {
    let mut a = app(&["a"], &["a"]);
    press(&mut a, Key::Char('d'));
    a.handle_reply(Reply::Dirty(false));
    press(&mut a, Key::Char('y'));
    match a.handle_reply(Reply::Done) {
        Command::Save { app_config } => assert_eq!(app_config.todos[0].status, TodoStatus::Done),
        other => panic!("unexpected {:?}", other),
    }
    assert_eq!(a.app_config.todos[0].status, TodoStatus::Pending);
    assert!(matches!(a.handle_reply(Reply::Failed("disk full".to_string())), Command::Wait));
    assert_eq!(a.app_config.todos[0].status, TodoStatus::Pending);
    assert_eq!(a.error_message, Some("disk full".to_string()));
    assert_eq!(a.input_mode, InputMode::Normal);
    assert!(a.worktree_to_delete.is_none());
    assert_eq!(a.pending, Pending::Idle);
}

#[test]
fn todos_created_through_the_form_come_newest_first() {
    let mut a = app(&[], &[]);
    for (description, name) in [("A", "a"), ("B", "b")] {
        press(&mut a, Key::Char('n'));
        type_text(&mut a, description);
        match press(&mut a, Key::Enter) {
            Command::CreateWorktree { name: asked, branch } => {
                assert_eq!(asked, name);
                assert_eq!(branch, name);
            }
            other => panic!("unexpected {:?}", other),
        }
        let saved = match a.handle_reply(Reply::Done) {
            Command::Save { app_config } => app_config,
            other => panic!("unexpected {:?}", other),
        };
        assert!(matches!(a.handle_reply(Reply::Done), Command::Refresh));
        a.handle_reply(Reply::Snapshot { worktrees: Vec::new(), app_config: saved });
        assert_eq!(a.input_mode, InputMode::Normal);
    }
    assert_eq!(a.app_config.todos.len(), 2);
    assert_eq!(a.app_config.todos[0].description, "B");
    assert_eq!(a.app_config.todos[0].worktree, Some("b".to_string()));
    assert_eq!(a.app_config.todos[1].description, "A");
    assert_eq!(a.app_config.todos[1].worktree, Some("a".to_string()));
}

#[test]
fn the_form_records_the_scenario_todo() {
    let mut a = app(&[], &[]);
    press(&mut a, Key::Char('n'));
    type_text(&mut a, "Fix bug");
    assert_eq!(a.worktree_input, "fix-bug");
    assert!(matches!(press(&mut a, Key::Enter), Command::CreateWorktree { .. }));
    assert!(matches!(a.handle_reply(Reply::Done), Command::Save { .. }));
    a.handle_reply(Reply::Done);
    assert_eq!(a.app_config.todos.len(), 1);
    assert_eq!(a.app_config.todos[0].description, "Fix bug");
    assert_eq!(a.app_config.todos[0].status, TodoStatus::Pending);
    assert_eq!(a.app_config.todos[0].worktree, Some("fix-bug".to_string()));
}

#[test]
fn deleting_a_worktree_step_by_step() {
    let mut a = App::new(
        store(&["a", "b"]),
        vec![worktree("a"), worktree("b")],
        Some("b".to_string()),
        Some("b".to_string()),
    );
    assert_eq!(a.selected, Some(1));
    match press(&mut a, Key::Char('d')) {
        Command::CheckDirty { path } => assert_eq!(path, "/repo/b"),
        other => panic!("unexpected {:?}", other),
    }
    assert_eq!(a.pending, Pending::DirtyCheck);
    assert!(matches!(a.handle_reply(Reply::Dirty(true)), Command::Wait));
    assert_eq!(a.input_mode, InputMode::ConfirmDelete);
    assert!(a.delete_is_dirty);
    assert_eq!(a.worktree_to_delete.as_ref().unwrap().name, "b");

    assert!(matches!(press(&mut a, Key::Char('x')), Command::Wait));
    assert_eq!(a.input_mode, InputMode::ConfirmDelete);
    match press(&mut a, Key::Char('y')) {
        Command::DeleteWorktree { path, force } => {
            assert_eq!(path, "/repo/b");
            assert!(force);
        }
        other => panic!("unexpected {:?}", other),
    }
    match a.handle_reply(Reply::Done) {
        Command::Save { app_config } => {
            assert_eq!(app_config.todos[1].status, TodoStatus::Done);
            assert_eq!(app_config.todos[0].status, TodoStatus::Pending);
        }
        other => panic!("unexpected {:?}", other),
    }
    assert_eq!(a.app_config.todos[1].status, TodoStatus::Pending);
    match a.handle_reply(Reply::Done) {
        Command::KillSession { name } => assert_eq!(name, "b"),
        other => panic!("unexpected {:?}", other),
    }
    assert_eq!(a.app_config.todos[1].status, TodoStatus::Done);
    assert_eq!(a.app_config.todos[0].status, TodoStatus::Pending);
    assert!(matches!(a.handle_reply(Reply::Failed("no server".to_string())), Command::Refresh));
    let snapshot =
        Reply::Snapshot { worktrees: vec![worktree("a")], app_config: a.app_config.clone() };
    assert!(matches!(a.handle_reply(snapshot), Command::Wait));
    assert_eq!(a.input_mode, InputMode::Normal);
    assert_eq!(a.pending, Pending::Idle);
    assert!(a.worktree_to_delete.is_none());
    assert!(!a.delete_is_dirty);
    assert!(a.error_message.is_none());
    assert_eq!(a.worktrees.len(), 1);
    assert_eq!(a.selected, Some(1));
    assert!(a.target().is_none());
}

#[test]
fn a_clean_worktree_outside_its_session_is_deleted_without_force_or_kill() {
    let mut a = App::new(store(&["a"]), vec![worktree("a")], None, Some("other".to_string()));
    press(&mut a, Key::Delete);
    a.handle_reply(Reply::Dirty(false));
    match press(&mut a, Key::Enter) {
        Command::DeleteWorktree { force, .. } => assert!(!force),
        other => panic!("unexpected {:?}", other),
    }
    a.handle_reply(Reply::Done);
    assert!(matches!(a.handle_reply(Reply::Done), Command::Refresh));
    assert_eq!(a.pending, Pending::RefreshAfterDelete);
}

#[test]
fn a_declined_deletion_changes_nothing() {
    for key in [Key::Char('n'), Key::Char('N'), Key::Esc] {
        let mut a = app(&["a"], &["a"]);
        press(&mut a, Key::Char('d'));
        a.handle_reply(Reply::Dirty(false));
        assert_eq!(a.input_mode, InputMode::ConfirmDelete);
        assert!(matches!(press(&mut a, key), Command::Wait));
        assert_eq!(a.input_mode, InputMode::Normal);
        assert!(a.worktree_to_delete.is_none());
        assert_eq!(a.app_config.todos[0].status, TodoStatus::Pending);
    }
}

#[test]
fn a_failed_deletion_is_reported() {
    let mut a = app(&["a"], &["a"]);
    press(&mut a, Key::Char('d'));
    a.handle_reply(Reply::Dirty(false));
    press(&mut a, Key::Char('Y'));
    assert!(matches!(a.handle_reply(Reply::Failed("locked".to_string())), Command::Wait));
    assert_eq!(a.input_mode, InputMode::Normal);
    assert_eq!(a.error_message, Some("Failed to delete worktree: locked".to_string()));
    assert!(a.worktree_to_delete.is_none());
    assert_eq!(a.app_config.todos[0].status, TodoStatus::Pending);
    press(&mut a, Key::Char('j'));
    assert!(a.error_message.is_none());
}

#[test]
fn a_failed_status_query_is_reported() {
    let mut a = app(&["a"], &["a"]);
    press(&mut a, Key::Char('d'));
    assert!(matches!(a.handle_reply(Reply::Failed("git status failed: x".to_string())), Command::Wait));
    assert_eq!(a.input_mode, InputMode::Normal);
    assert_eq!(a.error_message, Some("git status failed: x".to_string()));
    assert_eq!(a.pending, Pending::Idle);
}

#[test]
fn refresh_takes_the_new_snapshot() {
    let mut a = app(&[], &[]);
    assert!(matches!(press(&mut a, Key::Char('r')), Command::Refresh));
    assert_eq!(a.pending, Pending::Refresh);
    let snapshot = Reply::Snapshot { worktrees: vec![worktree("a")], app_config: store(&["a", "b"]) };
    assert!(matches!(a.handle_reply(snapshot), Command::Wait));
    assert_eq!(a.selected, Some(0));
    assert_eq!(a.app_config.todos.len(), 2);
    assert_eq!(a.worktrees.len(), 1);

    let mut on_button = app(&[], &[]);
    on_button.next();
    press(&mut on_button, Key::Char('r'));
    on_button.handle_reply(Reply::Snapshot { worktrees: Vec::new(), app_config: store(&["a"]) });
    assert_eq!(on_button.selected, None);
    assert!(on_button.button_selected);

    let mut shrunk = app(&["a", "b", "c"], &[]);
    shrunk.next();
    shrunk.next();
    shrunk.refresh_worktrees(Vec::new(), store(&["a"]));
    assert_eq!(shrunk.selected, Some(0));
    shrunk.refresh_worktrees(Vec::new(), store(&[]));
    assert_eq!(shrunk.selected, None);

    let mut failing = app(&["a"], &[]);
    press(&mut failing, Key::Char('r'));
    failing.handle_reply(Reply::Failed("Not in a git repository".to_string()));
    assert_eq!(failing.error_message, Some("Not in a git repository".to_string()));
    assert_eq!(failing.pending, Pending::Idle);
}

#[test]
fn a_reply_that_nothing_waits_for_changes_nothing() {
    let mut a = app(&["a"], &["a"]);
    assert!(matches!(a.handle_reply(Reply::Done), Command::Wait));
    assert!(matches!(a.handle_reply(Reply::Failed("x".to_string())), Command::Wait));
    assert!(a.error_message.is_none());
    assert_eq!(a.selected, Some(0));
    assert_eq!(a.input_mode, InputMode::Normal);
}

#[test]
fn clicks_hit_rows_and_button() {
    let mut a = app(&["a", "b", "c"], &[]);
    a.list_area = Rect { x: 0, y: 0, width: 80, height: 21 };
    a.button_area = Rect { x: 64, y: 21, width: 16, height: 3 };
    assert_eq!(a.handle_click(5, 0), Some(0));
    assert_eq!(a.handle_click(5, 1), Some(0));
    assert_eq!(a.handle_click(5, 2), Some(1));
    assert_eq!(a.handle_click(79, 3), Some(2));
    assert_eq!(a.handle_click(5, 4), None);
    assert_eq!(a.handle_click(80, 1), None);
    assert_eq!(a.handle_click(5, 21), None);
    assert!(a.is_new_button_clicked(64, 21));
    assert!(a.is_new_button_clicked(79, 23));
    assert!(!a.is_new_button_clicked(63, 21));
    assert!(!a.is_new_button_clicked(80, 21));
    assert!(!a.is_new_button_clicked(70, 24));

    a.toggle_button_focus();
    assert!(matches!(a.handle_event(Event::Click { column: 3, row: 3 }), Command::Wait));
    assert_eq!(a.selected, Some(2));
    assert!(!a.button_selected);
    assert!(matches!(a.handle_event(Event::Click { column: 70, row: 22 }), Command::Wait));
    assert_eq!(a.input_mode, InputMode::CreatingWorktree);
    assert!(matches!(a.handle_event(Event::Click { column: 3, row: 1 }), Command::Wait));
    assert_eq!(a.selected, Some(2));
    assert_eq!(a.input_mode, InputMode::CreatingWorktree);
}

#[test]
fn hit_tests_at_the_edge_of_the_screen() {
    let mut a = app(&["a"], &[]);
    a.list_area = Rect { x: 65000, y: 65535, width: 535, height: 1 };
    a.button_area = Rect { x: 0, y: 0, width: 65535, height: 65535 };
    assert_eq!(a.handle_click(65534, 65535), Some(0));
    assert_eq!(a.handle_click(65535, 65535), None);
    assert!(a.is_new_button_clicked(65534, 65534));
    assert!(!a.is_new_button_clicked(65535, 0));
}
