use lfg::config::StorageBackend;
use lfg::init::{
    boards_on_offer, initial_settings, project_name, select_project, signed_in, wants_github,
    InitError,
};

#[test]
fn the_project_is_named_by_the_answer_or_by_the_directory() {
    assert_eq!(project_name("  my tool \n", "/home/u/repo"), "my tool");
    assert_eq!(project_name("\n", "/home/u/repo"), "repo");
    assert_eq!(project_name("", "/home/u/repo/"), "repo");
    assert_eq!(project_name("   ", "/"), "default");
    assert_eq!(project_name("", ""), "default");
    assert_eq!(project_name("", "/a/.."), "default");
}

#[test]
fn only_the_answer_two_chooses_the_board() {
    assert!(wants_github("2"));
    assert!(wants_github(" 2\n"));
    assert!(!wants_github("1"));
    assert!(!wants_github(""));
    assert!(!wants_github("22"));
    assert!(!wants_github("two"));
    assert!(!wants_github("+2"));
}

#[test]
fn a_selection_is_a_number_from_one_to_the_count() {
    assert_eq!(select_project("1", 3), Ok(0));
    assert_eq!(select_project(" 3\n", 3), Ok(2));
    assert_eq!(select_project("+2", 3), Ok(1));
    assert_eq!(select_project("002", 3), Ok(1));
    for bad in ["0", "4", "", " ", "+", "-1", "1.0", "one", "1 2", "2x", "++1", "٣"] {
        assert_eq!(select_project(bad, 3), Err(InitError::InvalidSelection), "answer {:?}", bad);
    }
    assert_eq!(select_project("1", 0), Err(InitError::InvalidSelection));
    assert_eq!(
        select_project("340282366920938463463374607431768211456", usize::MAX),
        Err(InitError::InvalidSelection)
    );
    assert_eq!(select_project("18446744073709551616", 5), Err(InitError::InvalidSelection));
    assert_eq!(select_project("12", 12), Ok(11));
}

#[test]
fn a_selection_agrees_with_the_parse_of_std() {
    for answer in ["1", "7", "+3", "03", "10", "11", " 5 ", "x", "", "+", "-0", "0"] {
        let expected = match answer.trim().parse::<usize>() {
            Ok(n) if n >= 1 && n <= 10 => Ok(n - 1),
            _ => Err(InitError::InvalidSelection),
        };
        assert_eq!(select_project(answer, 10), expected, "answer {:?}", answer);
    }
}

#[test]
fn settings_of_a_new_project() {
    let settings = initial_settings("tool".to_string(), StorageBackend::Local);
    assert_eq!(settings.name, "tool");
    assert_eq!(settings.worktree_naming, "Add feature");
    assert!(matches!(settings.storage_backend, StorageBackend::Local));
    assert!(settings.todos.is_empty());
    assert_eq!(settings.windows.len(), 3);
    assert_eq!(settings.windows[0].name, "editor");
    assert_eq!(settings.windows[0].command, None);
    assert_eq!(settings.windows[1].name, "server");
    assert_eq!(
        settings.windows[1].command,
        Some("omnara --dangerously-skip-permissions".to_string())
    );
    assert_eq!(settings.windows[2].name, "shell");
    assert_eq!(settings.windows[2].command, None);
}

#[test]
fn messages_of_the_dialogue() {
    assert_eq!(
        InitError::NotAuthenticated.message(),
        "GitHub CLI is not authenticated. Please run 'gh auth login' first."
    );
    assert_eq!(InitError::NoProjects.message(), "No projects available");
    assert_eq!(InitError::InvalidSelection.message(), "Invalid project selection");
}

#[test]
fn the_dialogue_refuses_without_sign_in_or_boards() {
    assert_eq!(signed_in(true), Ok(()));
    assert_eq!(signed_in(false), Err(InitError::NotAuthenticated));
    assert_eq!(boards_on_offer(1), Ok(()));
    assert_eq!(boards_on_offer(7), Ok(()));
    assert_eq!(boards_on_offer(0), Err(InitError::NoProjects));
}
