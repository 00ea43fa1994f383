use lfg::config::{AppConfig, Todo, TodoStatus};
use lfg::git::Worktree;
use lfg::layout::{split_columns, split_form, split_rows, Rect};
use lfg::layout::{columns_plan, form_plan, rows_plan, Constraint};
use lfg::render::{
    bottom_rows, confirm_delete_message, full_help, help_text, help_title, input_help_text,
    regions, screen_for, todo_row, todo_rows, ui, Color, Regions, Screen, Span,
};
use lfg::tui::{App, Event, InputMode, Key, Reply};

fn worktree(name: &str) -> Worktree {
    Worktree { name: name.to_string(), path: format!("/repo/{}", name), branch: name.to_string() }
}

fn todo(description: &str, status: TodoStatus, worktree: Option<&str>) -> Todo {
    Todo { description: description.to_string(), status, worktree: worktree.map(|w| w.to_string()) }
}

fn texts(line: &[Span]) -> Vec<&str> {
    line.iter().map(|s| s.text.as_str()).collect()
}

fn screen_area() -> Rect {
    Rect { x: 0, y: 0, width: 80, height: 24 }
}

#[test]
fn rows_show_status_description_and_link() {
    let listing = vec![worktree("here")];
    let open = todo_row(&todo("Write", TodoStatus::Pending, Some("here")), &listing);
    assert_eq!(texts(&open), vec!["[ ] ", "Write", " (here)"]);
    assert_eq!(open[0].color, Color::Green);
    assert_eq!(open[1].color, Color::White);
    assert_eq!(open[2].color, Color::DarkGray);
    assert!(open.iter().all(|s| !s.bold));

    let done = todo_row(&todo("Ship", TodoStatus::Done, Some("gone")), &listing);
    assert_eq!(texts(&done), vec!["[\u{2713}] ", "Ship", " (gone) [deleted]"]);
    assert_eq!(done[1].color, Color::DarkGray);

    let loose = todo_row(&todo("Think", TodoStatus::Pending, None), &listing);
    assert_eq!(texts(&loose), vec!["[ ] ", "Think", ""]);

    let rows = todo_rows(
        &vec![todo("a", TodoStatus::Pending, None), todo("b", TodoStatus::Done, Some("here"))],
        &listing,
    );
    assert_eq!(rows.len(), 2);
    assert_eq!(texts(&rows[1]), vec!["[\u{2713}] ", "b", " (here)"]);
    assert_eq!(todo_rows(&Vec::new(), &listing).len(), 0);
}

#[test]
fn help_text_shrinks_with_the_width() {
    let full = "q: Quit | n: New | d: Delete | r: Refresh | Tab: Toggle | Enter: Select | ?: Help";
    let medium = "q: Quit | n: New | d: Delete | r: Refresh | Tab: Toggle | ?: Help";
    let small = "q: Quit | n: New | d: Del | r: Refresh | ?: Help";
    let tiny = "q: Quit | n: New | d: Del | ?: Help";
    assert_eq!(help_text(200), full);
    assert_eq!(help_text(90), full);
    assert_eq!(help_text(89), medium);
    assert_eq!(help_text(70), medium);
    assert_eq!(help_text(69), small);
    assert_eq!(help_text(50), small);
    assert_eq!(help_text(49), tiny);
    assert_eq!(help_text(0), tiny);
}

#[test]
fn input_help_says_whether_the_form_is_ready() {
    assert_eq!(input_help_text(true), "Enter: Create | Esc: Cancel");
    assert_eq!(input_help_text(false), "Type a description to continue | Esc: Cancel");
}

#[test]
fn help_screen_lines() {
    let lines = full_help();
    assert_eq!(lines.len(), 14);
    assert_eq!(texts(&lines[0]), vec!["Navigation"]);
    assert!(lines[0][0].bold);
    assert_eq!(lines[0][0].color, Color::Cyan);
    assert!(lines[1].is_empty());
    assert_eq!(texts(&lines[2]), vec!["  \u{2191}/k        ", "Move selection up"]);
    assert_eq!(lines[2][0].color, Color::Yellow);
    assert_eq!(lines[2][1].color, Color::Plain);
    assert_eq!(texts(&lines[3]), vec!["  \u{2193}/j        ", "Move selection down"]);
    assert_eq!(texts(&lines[7]), vec!["Actions"]);
    assert_eq!(texts(&lines[13]), vec!["  q/Esc      ", "Quit application"]);
}

#[test]
fn confirmation_lines() {
    let clean = confirm_delete_message("feat", false);
    assert_eq!(clean.len(), 3);
    assert_eq!(texts(&clean[0]), vec!["Delete worktree '", "feat", "'?"]);
    assert!(clean[0][1].bold);
    assert_eq!(clean[0][1].color, Color::Cyan);
    assert!(clean[1].is_empty());
    assert_eq!(texts(&clean[2]), vec!["Y", "es | ", "N", "o / Esc"]);
    assert_eq!(clean[2][0].color, Color::Green);
    assert_eq!(clean[2][2].color, Color::Red);

    let dirty = confirm_delete_message("feat", true);
    assert_eq!(dirty.len(), 5);
    assert_eq!(
        texts(&dirty[0]),
        vec!["\u{26a0} WARNING: ", "This worktree has uncommitted changes!"]
    );
    assert_eq!(dirty[0][0].color, Color::Red);
    assert!(dirty[0][0].bold);
    assert_eq!(dirty[0][1].color, Color::Yellow);
    assert_eq!(texts(&dirty[2]), vec!["Delete worktree '", "feat", "'?"]);
    assert_eq!(texts(&dirty[4]), vec!["Y", "es (force delete) | ", "N", "o / Esc"]);
}

#[test]
fn an_area_is_split_into_stripes() {
    let (top, bottom) = split_rows(screen_area(), 3);
    assert_eq!(top, Rect { x: 0, y: 0, width: 80, height: 21 });
    assert_eq!(bottom, Rect { x: 0, y: 21, width: 80, height: 3 });
    let (left, right) = split_columns(bottom);
    assert_eq!(left, Rect { x: 0, y: 21, width: 64, height: 3 });
    assert_eq!(right, Rect { x: 64, y: 21, width: 16, height: 3 });
    let (a, b, c) = split_form(Rect { x: 2, y: 1, width: 40, height: 10 });
    assert_eq!(a, Rect { x: 2, y: 1, width: 40, height: 3 });
    assert_eq!(b, Rect { x: 2, y: 4, width: 40, height: 3 });
    assert_eq!(c, Rect { x: 2, y: 7, width: 40, height: 4 });
}

#[test]
fn regions_of_each_mode() {
    assert_eq!(
        regions(InputMode::Normal, screen_area()),
        Regions::Normal {
            list: Rect { x: 0, y: 0, width: 80, height: 21 },
            help: Rect { x: 0, y: 21, width: 64, height: 3 },
            button: Rect { x: 64, y: 21, width: 16, height: 3 },
        }
    );
    assert_eq!(
        regions(InputMode::ConfirmDelete, screen_area()),
        Regions::ConfirmDelete {
            list: Rect { x: 0, y: 0, width: 80, height: 16 },
            confirm: Rect { x: 0, y: 16, width: 80, height: 8 },
        }
    );
    assert_eq!(
        regions(InputMode::Help, screen_area()),
        Regions::Help {
            body: Rect { x: 0, y: 0, width: 80, height: 21 },
            footer: Rect { x: 0, y: 21, width: 80, height: 3 },
        }
    );
    assert_eq!(
        regions(InputMode::CreatingWorktree, screen_area()),
        Regions::CreatingWorktree {
            description: Rect { x: 0, y: 0, width: 80, height: 3 },
            name: Rect { x: 0, y: 3, width: 80, height: 3 },
            error: Rect { x: 0, y: 6, width: 80, height: 15 },
            help: Rect { x: 0, y: 21, width: 80, height: 3 },
        }
    );
}

#[test]
fn the_normal_screen_stores_the_hit_regions() {
    let mut config = AppConfig::default();
    config.add_todo("Write".to_string(), "here".to_string());
    let mut app = App::new(config, vec![worktree("here")], None, None);
    match ui(&mut app, screen_area()) {
        Screen::Normal { list_area, rows, selected, help_area, help_title, help, button_area } => {
            assert_eq!(list_area, Rect { x: 0, y: 0, width: 80, height: 21 });
            assert_eq!(button_area, Rect { x: 64, y: 21, width: 16, height: 3 });
            assert_eq!(help_area.width, 64);
            assert_eq!(help, "q: Quit | n: New | d: Del | r: Refresh | ?: Help");
            assert_eq!(rows.len(), 1);
            assert_eq!(texts(&rows[0]), vec!["[ ] ", "Write", " (here)"]);
            assert_eq!(selected, Some(0));
            assert_eq!(help_title, "Keys");
        }
        other => panic!("unexpected {:?}", other),
    }
    assert_eq!(app.list_area, Rect { x: 0, y: 0, width: 80, height: 21 });
    assert_eq!(app.button_area, Rect { x: 64, y: 21, width: 16, height: 3 });

    ui(&mut app, Rect { x: 0, y: 0, width: 120, height: 40 });
    assert_eq!(app.list_area, Rect { x: 0, y: 0, width: 120, height: 37 });
    assert_eq!(app.button_area, Rect { x: 96, y: 37, width: 24, height: 3 });
    assert_eq!(app.handle_click(3, 1), Some(0));
    assert!(app.is_new_button_clicked(100, 38));
}

#[test]
fn the_form_screen_shows_both_texts_and_the_error() {
    let mut app = App::new(AppConfig::default(), Vec::new(), None, None);
    app.handle_event(Event::Key(Key::Char('n')));
    app.handle_event(Event::Key(Key::Enter));
    match ui(&mut app, screen_area()) {
        Screen::CreatingWorktree { description, worktree_name, error, help, .. } => {
            assert_eq!(description, "");
            assert_eq!(worktree_name, "");
            assert_eq!(error, Some("Description and worktree name cannot be empty".to_string()));
            assert_eq!(help, "Type a description to continue | Esc: Cancel");
        }
        other => panic!("unexpected {:?}", other),
    }
    for c in "New Thing".chars() {
        app.handle_event(Event::Key(Key::Char(c)));
    }
    match ui(&mut app, screen_area()) {
        Screen::CreatingWorktree { description, worktree_name, error, help, .. } => {
            assert_eq!(description, "New Thing");
            assert_eq!(worktree_name, "new-thing");
            assert_eq!(error, None);
            assert_eq!(help, "Enter: Create | Esc: Cancel");
        }
        other => panic!("unexpected {:?}", other),
    }
    assert_eq!(app.list_area, Rect { x: 0, y: 0, width: 0, height: 0 });
}

#[test]
fn the_help_and_confirm_screens() {
    let mut config = AppConfig::default();
    config.add_todo("Write".to_string(), "here".to_string());
    let mut app = App::new(config, vec![worktree("here")], None, None);
    app.handle_event(Event::Key(Key::Char('?')));
    match ui(&mut app, screen_area()) {
        Screen::Help { lines, footer, .. } => {
            assert_eq!(lines.len(), 14);
            assert_eq!(footer, "Press ? or Esc to close");
        }
        other => panic!("unexpected {:?}", other),
    }
    app.handle_event(Event::Key(Key::Char('?')));
    app.handle_event(Event::Key(Key::Char('d')));
    app.handle_reply(Reply::Dirty(true));
    match ui(&mut app, screen_area()) {
        Screen::ConfirmDelete { list_area, rows, selected, confirm_area, message } => {
            assert_eq!(list_area, Rect { x: 0, y: 0, width: 80, height: 16 });
            assert_eq!(confirm_area.height, 8);
            assert_eq!(rows.len(), 1);
            assert_eq!(selected, Some(0));
            assert_eq!(message.len(), 5);
            assert_eq!(texts(&message[2]), vec!["Delete worktree '", "here", "'?"]);
        }
        other => panic!("unexpected {:?}", other),
    }
    assert_eq!(app.list_area, Rect { x: 0, y: 0, width: 80, height: 16 });
    let (shown, _) = (screen_for(&app, Regions::Help { body: screen_area(), footer: screen_area() }), 0);
    assert!(matches!(shown, Screen::Help { .. }));
}

#[test]
fn what_the_layout_is_asked_for() {
    assert_eq!(rows_plan(3), vec![Constraint::Min(0), Constraint::Length(3)]);
    assert_eq!(rows_plan(8), vec![Constraint::Min(0), Constraint::Length(8)]);
    assert_eq!(columns_plan(), vec![Constraint::Percentage(80), Constraint::Percentage(20)]);
    assert_eq!(
        form_plan(),
        vec![Constraint::Length(3), Constraint::Length(3), Constraint::Min(0)]
    );
    assert_eq!(bottom_rows(InputMode::Normal), 3);
    assert_eq!(bottom_rows(InputMode::CreatingWorktree), 3);
    assert_eq!(bottom_rows(InputMode::Help), 3);
    assert_eq!(bottom_rows(InputMode::ConfirmDelete), 8);
}

#[test]
fn regions_lie_inside_the_area() {
    let inside = |r: Rect, a: Rect| {
        r.x >= a.x
            && r.y >= a.y
            && r.x as u32 + r.width as u32 <= a.x as u32 + a.width as u32
            && r.y as u32 + r.height as u32 <= a.y as u32 + a.height as u32
    };
    for area in [
        Rect { x: 0, y: 0, width: 80, height: 24 },
        Rect { x: 3, y: 2, width: 10, height: 2 },
        Rect { x: 0, y: 0, width: 0, height: 0 },
        Rect { x: 7, y: 9, width: 1, height: 100 },
        Rect { x: 65000, y: 65000, width: 535, height: 535 },
        Rect { x: 65535, y: 65535, width: 100, height: 100 },
        Rect { x: 10, y: 10, width: 65535, height: 65535 },
    ] {
        match regions(InputMode::Normal, area) {
            Regions::Normal { list, help, button } => {
                assert!(inside(list, area) && inside(help, area) && inside(button, area));
                assert_eq!((list.x, list.width), (area.x, area.width));
                assert_eq!((help.y, help.height), (button.y, button.height));
            }
            other => panic!("unexpected {:?}", other),
        }
        match regions(InputMode::CreatingWorktree, area) {
            Regions::CreatingWorktree { description, name, error, help } => {
                for part in [description, name, error, help] {
                    assert!(inside(part, area));
                    assert_eq!((part.x, part.width), (area.x, area.width));
                }
            }
            other => panic!("unexpected {:?}", other),
        }
    }
}

#[test]
fn the_error_is_the_title_of_the_key_summary() {
    assert_eq!(help_title(&None), "Keys");
    assert_eq!(help_title(&Some("Not in a git repository".to_string())), "Not in a git repository");

    let mut app = App::new(AppConfig::default(), Vec::new(), None, None);
    app.handle_event(Event::Key(Key::Char('r')));
    app.handle_reply(Reply::Failed("Not in a git repository".to_string()));
    match ui(&mut app, screen_area()) {
        Screen::Normal { help_title, .. } => assert_eq!(help_title, "Not in a git repository"),
        other => panic!("unexpected {:?}", other),
    }
}

#[test]
fn no_row_is_marked_while_the_button_has_the_focus() {
    let mut config = AppConfig::default();
    config.add_todo("a".to_string(), "a".to_string());
    config.add_todo("b".to_string(), "b".to_string());
    let mut app = App::new(config, Vec::new(), None, None);
    app.next();
    app.toggle_button_focus();
    match ui(&mut app, screen_area()) {
        Screen::Normal { selected, .. } => assert_eq!(selected, None),
        other => panic!("unexpected {:?}", other),
    }
    app.toggle_button_focus();
    match ui(&mut app, screen_area()) {
        Screen::Normal { selected, .. } => assert_eq!(selected, Some(1)),
        other => panic!("unexpected {:?}", other),
    }
}
