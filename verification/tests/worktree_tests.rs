use lfg::config::default_windows;
use lfg::git::{
    create_command, create_worktree, delete_command, delete_worktree, find_worktree,
    get_current_worktree, get_git_root, git_root_command, is_worktree_dirty, jump_to_worktree,
    list_command, list_worktrees, parse_worktrees, status_command, worktree_path, GitError,
    Worktree,
};
use lfg::process::Outcome;
use lfg::tmux::Stage;

fn exited(success: bool, stdout: &str, stderr: &str) -> Outcome {
    Outcome::Exited { success, stdout: stdout.to_string(), stderr: stderr.to_string() }
}

fn not_started() -> Outcome {
    Outcome::NotStarted("No such file or directory".to_string())
}

fn listing() -> Vec<Worktree> {
    vec![
        Worktree { name: "main".to_string(), path: "/repo/main".to_string(), branch: "main".to_string() },
        Worktree { name: "feat".to_string(), path: "/repo/feat".to_string(), branch: "feat".to_string() },
        Worktree { name: "feat".to_string(), path: "/other/feat".to_string(), branch: "x".to_string() },
    ]
}

#[test]
fn parse_skips_what_fits_no_record() {
    let output = "garbage\nworktree /a/one\nHEAD abc\n\nbranch refs/heads/lost\n\nworktree /a/two\nbranch refs/heads/two\nworktree /a/three\n\nbare\n";
    let worktrees = parse_worktrees(output).unwrap();
    assert_eq!(worktrees.len(), 1);
    assert_eq!(worktrees[0].name, "three");
    assert_eq!(worktrees[0].path, "/a/three");
    assert_eq!(worktrees[0].branch, "two");
}

#[test]
fn parse_strips_repeated_prefixes_and_carriage_returns() {
    let output = "worktree worktree /a/b\r\nbranch branch refs/heads/refs/heads/topic\r\n\r\n";
    let worktrees = parse_worktrees(output).unwrap();
    assert_eq!(worktrees.len(), 1);
    assert_eq!(worktrees[0].path, "/a/b");
    assert_eq!(worktrees[0].name, "b");
    assert_eq!(worktrees[0].branch, "topic");
}

#[test]
fn parse_names_a_path_without_final_segment_unknown() {
    let worktrees = parse_worktrees("worktree /\nbranch main\n\nworktree /a/..\nbranch b\n").unwrap();
    assert_eq!(worktrees.len(), 2);
    assert_eq!(worktrees[0].name, "unknown");
    assert_eq!(worktrees[0].path, "/");
    assert_eq!(worktrees[1].name, "unknown");
}

#[test]
fn parse_keeps_detached_worktrees_out() {
    let output = "worktree /a/main\nHEAD 1\nbranch refs/heads/main\n\nworktree /a/detached\nHEAD 2\ndetached\n\n";
    let worktrees = parse_worktrees(output).unwrap();
    assert_eq!(worktrees.len(), 1);
    assert_eq!(worktrees[0].name, "main");
}

#[test]
fn commands_hold_the_arguments_in_order() {
    assert_eq!(list_command(), vec!["worktree", "list", "--porcelain"]);
    assert_eq!(git_root_command(), vec!["rev-parse", "--show-toplevel"]);
    assert_eq!(create_command("/r/wt", Some("wt")), vec!["worktree", "add", "-b", "wt", "/r/wt"]);
    assert_eq!(create_command("/r/wt", None), vec!["worktree", "add", "/r/wt"]);
    assert_eq!(status_command("/r/wt"), vec!["-C", "/r/wt", "status", "--porcelain"]);
    assert_eq!(delete_command("/r/wt", false), vec!["worktree", "remove", "/r/wt"]);
    assert_eq!(delete_command("/r/wt", true), vec!["worktree", "remove", "--force", "/r/wt"]);
}

#[test]
fn listing_outcomes() {
    let ok = list_worktrees(&exited(true, "worktree /a/b\nbranch refs/heads/b\n", "")).unwrap();
    assert_eq!(ok.len(), 1);
    assert_eq!(ok[0].name, "b");

    let failed = list_worktrees(&exited(false, "", "fatal: not a git repository")).unwrap_err();
    assert!(matches!(failed, GitError::Directory(_)));
    assert_eq!(failed.message(), "git worktree list failed: fatal: not a git repository");

    let missing = list_worktrees(&not_started()).unwrap_err();
    assert!(matches!(missing, GitError::NotRun(_)));
    assert_eq!(missing.message(), "Failed to execute git worktree list");
}

#[test]
fn git_root_outcomes() {
    assert_eq!(get_git_root(&exited(true, "/home/u/repo\n", "")).unwrap(), "/home/u/repo");
    let failed = get_git_root(&exited(false, "", "fatal")).unwrap_err();
    assert!(matches!(failed, GitError::NotInRepository));
    assert_eq!(failed.message(), "Not in a git repository");
    assert_eq!(get_git_root(&not_started()).unwrap_err().message(), "Failed to get git root");
}

#[test]
fn new_worktree_lies_beside_the_repository() {
    assert_eq!(worktree_path("/home/u/repo", "add-login-flow"), "/home/u/add-login-flow");
    assert_eq!(worktree_path("/", "wt"), "/wt");
}

#[test]
fn create_outcomes() {
    assert_eq!(create_worktree(&exited(true, "", ""), "/r/wt".to_string()).unwrap(), "/r/wt");
    let failed = create_worktree(&exited(false, "", "already exists"), "/r/wt".to_string()).unwrap_err();
    assert!(matches!(failed, GitError::Create(_)));
    assert_eq!(failed.message(), "Failed to create worktree: already exists");
    let missing = create_worktree(&not_started(), "/r/wt".to_string()).unwrap_err();
    assert_eq!(missing.message(), "Failed to create worktree");
}

#[test]
fn dirty_exactly_when_the_status_prints() {
    assert_eq!(is_worktree_dirty(&exited(true, "", "")).unwrap(), false);
    assert_eq!(is_worktree_dirty(&exited(true, " M src/lib.rs\n", "")).unwrap(), true);
    assert_eq!(is_worktree_dirty(&exited(true, "\n", "")).unwrap(), true);
    let failed = is_worktree_dirty(&exited(false, "x", "bad")).unwrap_err();
    assert!(matches!(failed, GitError::Status(_)));
    assert_eq!(failed.message(), "git status failed: bad");
    assert_eq!(is_worktree_dirty(&not_started()).unwrap_err().message(), "Failed to check worktree status");
}

#[test]
fn delete_outcomes() {
    assert!(delete_worktree(&exited(true, "", "")).is_ok());
    let failed = delete_worktree(&exited(false, "", "contains modified files")).unwrap_err();
    assert!(matches!(failed, GitError::Delete(_)));
    assert_eq!(failed.message(), "Failed to delete worktree: contains modified files");
    assert_eq!(delete_worktree(&not_started()).unwrap_err().message(), "Failed to delete worktree");
}

#[test]
fn find_takes_the_first_worktree_of_the_name() {
    let found = find_worktree(&listing(), "feat").unwrap();
    assert_eq!(found.path, "/repo/feat");
    assert_eq!(found.branch, "feat");
    let missing = find_worktree(&listing(), "nope").unwrap_err();
    assert!(matches!(missing, GitError::NotFound(_)));
    assert_eq!(missing.message(), "Worktree 'nope' not found");
    assert!(find_worktree(&Vec::new(), "main").is_err());
}

#[test]
fn current_worktree_is_the_first_around_the_directory() {
    assert_eq!(get_current_worktree("/repo/feat/src/deep", &listing()), Some("feat".to_string()));
    assert_eq!(get_current_worktree("/repo/main", &listing()), Some("main".to_string()));
    assert_eq!(get_current_worktree("/repo/mainline", &listing()), None);
    assert_eq!(get_current_worktree("/repo", &listing()), None);
    assert_eq!(get_current_worktree("/other/feat/x", &listing()), Some("feat".to_string()));
}

#[test]
fn jump_starts_the_session_protocol_in_the_worktree() {
    let run = jump_to_worktree(&listing(), "feat", &default_windows()).unwrap();
    assert_eq!(run.name, "feat");
    assert_eq!(run.path, "/repo/feat");
    assert_eq!(run.stage, Stage::Probe);
    assert_eq!(run.windows.len(), 4);
    assert!(run.failure.is_none());
    assert!(run.warnings.is_empty());

    let missing = jump_to_worktree(&listing(), "nope", &default_windows()).unwrap_err();
    assert_eq!(missing.message(), "Worktree 'nope' not found");
}
