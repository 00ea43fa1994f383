use lfg::config::{Todo, TodoStatus};
use lfg::github::{
    content_of, field_value, status_is_done, todo_from_item, FieldValue, GitHubClient, ProjectItem,
    ProjectItemContent,
};
use lfg::process::Outcome;

#[test]
fn test_github_client_creation() {
    let client = GitHubClient::new(
        "owner".to_string(),
        "repo".to_string(),
        1,
    );
    assert_eq!(client.owner, "owner");
    assert_eq!(client.repo, "repo");
    assert_eq!(client.project_number, 1);
}

#[test]
fn test_todo_status_parsing() {
    let todo = Todo {
        description: "Test".to_string(),
        status: TodoStatus::Pending,
        worktree: Some("test-worktree".to_string()),
    };
    assert_eq!(todo.status, TodoStatus::Pending);
}

fn item(title: &str, fields: &[(&str, &str)]) -> ProjectItem {
    ProjectItem {
        id: "item".to_string(),
        content: ProjectItemContent { title: title.to_string(), body: None },
        field_values: fields
            .iter()
            .map(|(field, value)| FieldValue { field: field.to_string(), value: value.to_string() })
            .collect(),
    }
}

#[test]
fn status_values_that_say_done() {
    assert!(status_is_done("Done"));
    assert!(status_is_done("COMPLETED"));
    assert!(status_is_done("all done now"));
    assert!(!status_is_done("In Progress"));
    assert!(!status_is_done(""));
    assert!(!status_is_done("don"));
}

#[test]
fn item_without_fields_is_a_pending_todo_without_link() {
    let todo = todo_from_item(&item("Write docs", &[]));
    assert_eq!(todo.description, "Write docs");
    assert_eq!(todo.status, TodoStatus::Pending);
    assert_eq!(todo.worktree, None);
}

#[test]
fn item_fields_give_status_and_link() {
    let todo = todo_from_item(&item(
        "Ship it",
        &[("Priority", "done"), ("Worktree", "first"), ("Status", "Complete"), ("Worktree", "ship-it")],
    ));
    assert_eq!(todo.status, TodoStatus::Done);
    assert_eq!(todo.worktree, Some("ship-it".to_string()));

    let open = todo_from_item(&item("Open", &[("Status", "Todo"), ("status", "done")]));
    assert_eq!(open.status, TodoStatus::Pending);
}

#[test]
fn sync_from_github_keeps_the_order_of_the_items() {
    let client = GitHubClient::new("o".to_string(), "r".to_string(), 7);
    let items = vec![item("A", &[("Status", "Done")]), item("B", &[("Worktree", "wb")])];
    let todos = client.sync_from_github(&items).unwrap();
    assert_eq!(todos.len(), 2);
    assert_eq!(todos[0].description, "A");
    assert_eq!(todos[0].status, TodoStatus::Done);
    assert_eq!(todos[1].description, "B");
    assert_eq!(todos[1].worktree, Some("wb".to_string()));
}

#[test]
fn writing_to_the_board_succeeds_and_does_nothing() {
    let client = GitHubClient::new("o".to_string(), "r".to_string(), 7);
    assert!(client.mark_todo_done("any").is_ok());
    assert!(client.sync_to_github(&[]).is_ok());
}

#[test]
fn authentication_follows_the_exit_status() {
    let ok = Outcome::Exited { success: true, stdout: String::new(), stderr: String::new() };
    let no = Outcome::Exited { success: false, stdout: String::new(), stderr: String::new() };
    assert_eq!(GitHubClient::is_authenticated(&ok).unwrap(), true);
    assert_eq!(GitHubClient::is_authenticated(&no).unwrap(), false);
    assert!(GitHubClient::is_authenticated(&Outcome::NotStarted("no gh".to_string())).is_err());
}

#[test]
fn an_item_without_title_is_untitled() {
    let named = content_of(Some("Fix".to_string()), Some("body".to_string()));
    assert_eq!(named.title, "Fix");
    assert_eq!(named.body, Some("body".to_string()));
    let unnamed = content_of(None, None);
    assert_eq!(unnamed.title, "Untitled");
    assert_eq!(unnamed.body, None);
}

#[test]
fn a_status_takes_the_name_and_a_worktree_the_text() {
    let name = || Some("Done".to_string());
    let text = || Some("wt-1".to_string());
    let status = field_value("Status", name(), text()).unwrap();
    assert_eq!(status.field, "Status");
    assert_eq!(status.value, "Done");
    let worktree = field_value("Worktree", name(), text()).unwrap();
    assert_eq!(worktree.field, "Worktree");
    assert_eq!(worktree.value, "wt-1");
    assert!(field_value("Status", None, text()).is_none());
    assert!(field_value("Worktree", name(), None).is_none());
    assert!(field_value("Priority", name(), text()).is_none());
    assert!(field_value("status", name(), text()).is_none());
}
