use github_issues_migrator::github::{
    check_reply, issues_query_variables, page_of_items, project_query_variables, to_domain_issue,
    to_domain_page_info, GithubIssue, GithubItem, GithubItems, GithubPageInfo, GithubQueryError,
};
use github_issues_migrator::time::Timestamp;

pub fn bare_issue() -> GithubIssue {
    GithubIssue {
        id: None,
        url: None,
        number: None,
        title: None,
        body: None,
        state: None,
        state_reason: None,
        created_at: None,
        updated_at: None,
        closed_at: None,
        labels: None,
        assignees: None,
        project_items: None,
    }
}

const NOW: Timestamp = Timestamp { secs: 1_000, nanos: 5 };

#[test]
fn to_domain_issue_takes_the_fields() {
    let gh = GithubIssue {
        title: Some("Fix login".to_string()),
        body: Some("It fails".to_string()),
        state: Some("OPEN".to_string()),
        number: Some(12),
        created_at: Some("2024-01-02T03:04:05Z".to_string()),
        updated_at: Some("2024-01-03T03:04:05.25Z".to_string()),
        ..bare_issue()
    };
    let issue = to_domain_issue(gh, NOW);
    assert_eq!(issue.id, None);
    assert_eq!(issue.title, "Fix login");
    assert_eq!(issue.body.as_deref(), Some("It fails"));
    assert_eq!(issue.status.as_deref(), Some("OPEN"));
    assert_eq!(issue.number, 12);
    assert_eq!(issue.project_id, None);
    assert_eq!(issue.snapshot_id, None);
    assert_eq!(issue.created_at, Timestamp { secs: 1_704_164_645, nanos: 0 });
    assert_eq!(issue.updated_at, Timestamp { secs: 1_704_251_045, nanos: 250_000_000 });
}

#[test]
fn to_domain_issue_fills_absent_fields() {
    let issue = to_domain_issue(bare_issue(), NOW);
    assert_eq!(issue.title, "");
    assert_eq!(issue.body, None);
    assert_eq!(issue.status, None);
    assert_eq!(issue.number, 0);
    assert_eq!(issue.created_at, NOW);
    assert_eq!(issue.updated_at, NOW);
}

#[test]
fn to_domain_issue_replaces_unreadable_date_times() {
    let gh = GithubIssue { created_at: Some("yesterday".to_string()), ..bare_issue() };
    let issue = to_domain_issue(gh, NOW);
    assert_eq!(issue.created_at, NOW);
}

#[test]
fn page_of_items_keeps_the_issues_in_order() {
    let first = GithubIssue { number: Some(1), ..bare_issue() };
    let second = GithubIssue { number: Some(2), ..bare_issue() };
    let items = GithubItems {
        page_info: GithubPageInfo { has_next_page: true, end_cursor: Some("abc".to_string()) },
        nodes: vec![
            Some(GithubItem { content: Some(first) }),
            None,
            Some(GithubItem { content: None }),
            Some(GithubItem { content: Some(second) }),
        ],
    };
    let (issues, info) = page_of_items(Some(items));
    assert_eq!(issues.len(), 2);
    assert_eq!(issues[0].number, Some(1));
    assert_eq!(issues[1].number, Some(2));
    assert!(info.has_next_page);
    assert_eq!(info.end_cursor.as_deref(), Some("abc"));
}

#[test]
fn page_of_items_without_items_is_the_last_page() {
    let (issues, info) = page_of_items(None);
    assert!(issues.is_empty());
    assert!(!info.has_next_page);
    assert_eq!(info.end_cursor, None);
    let empty = GithubItems { page_info: GithubPageInfo { has_next_page: false, end_cursor: None }, nodes: vec![] };
    let (issues, info) = page_of_items(Some(empty));
    assert!(issues.is_empty());
    assert!(!info.has_next_page);
}

#[test]
fn to_domain_page_info_moves_the_fields() {
    let info = to_domain_page_info(GithubPageInfo { has_next_page: true, end_cursor: Some("Y3Vyc29y".to_string()) });
    assert!(info.has_next_page);
    assert_eq!(info.end_cursor.as_deref(), Some("Y3Vyc29y"));
}

#[test]
fn issues_query_variables_default_the_limit() {
    let v = issues_query_variables("acme", 3, None, Some("c".to_string()));
    assert_eq!(v.organization, "acme");
    assert_eq!(v.project_number, 3);
    assert_eq!(v.limit, 100);
    assert_eq!(v.after.as_deref(), Some("c"));
    let v = issues_query_variables("acme", 3, Some(25), None);
    assert_eq!(v.limit, 25);
    assert_eq!(v.after, None);
}

#[test]
fn project_query_variables_name_the_project() {
    let v = project_query_variables("acme", 9);
    assert_eq!(v.organization, "acme");
    assert_eq!(v.project_number, 9);
}

#[test]
fn check_reply_needs_success_and_no_errors() {
    assert_eq!(check_reply(200, None), Ok(()));
    assert_eq!(check_reply(299, None), Ok(()));
    assert_eq!(check_reply(199, None), Err(GithubQueryError::HttpStatus(199)));
    assert_eq!(check_reply(300, None), Err(GithubQueryError::HttpStatus(300)));
    assert_eq!(check_reply(401, Some("bad".to_string())), Err(GithubQueryError::HttpStatus(401)));
    assert_eq!(check_reply(200, Some("[\"boom\"]".to_string())), Err(GithubQueryError::GraphQl("[\"boom\"]".to_string())));
}
