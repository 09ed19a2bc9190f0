use github_issues_migrator::application::ApplicationError;
use github_issues_migrator::domain::{Issue, PageInfo, Project, Snapshot};
use github_issues_migrator::ids::ObjectId;
use github_issues_migrator::sync::{SyncAction, SyncEvent, SyncState, PAGE_LIMIT};
use github_issues_migrator::time::Timestamp;

fn oid(b: u8) -> ObjectId {
    ObjectId { bytes: [b; 12] }
}

fn issue(number: i32) -> Issue {
    Issue {
        id: None,
        title: format!("issue {}", number),
        body: Some(format!("body {}", number)),
        status: Some("OPEN".to_string()),
        number,
        project_id: None,
        snapshot_id: None,
        created_at: Timestamp { secs: 1_700_000_000 + number as i64, nanos: 0 },
        updated_at: Timestamp { secs: 1_700_000_100 + number as i64, nanos: 0 },
    }
}

fn project(id: Option<ObjectId>, number: i32) -> Project {
    Project { id, name: "Board".to_string(), number }
}

fn snapshot(id: Option<ObjectId>) -> Snapshot {
    Snapshot { id, project_id: Some(oid(1)), created_at: Timestamp { secs: 1_700_000_000, nanos: 0 } }
}

fn page(issues: Vec<Issue>, has_next_page: bool, end_cursor: Option<&str>) -> SyncEvent {
    SyncEvent::IssuesFetched(Ok((issues, PageInfo { has_next_page, end_cursor: end_cursor.map(|c| c.to_string()) })))
}

fn to_fetching(number: i32) -> SyncState {
    let (state, _) = SyncState::begin(number, "Board");
    let (state, _) = state.step(SyncEvent::ProjectFound(Ok(project(Some(oid(1)), number))));
    let (state, action) = state.step(SyncEvent::SnapshotCreated(Ok(snapshot(Some(oid(2))))));
    assert!(matches!(action, SyncAction::FetchIssues { .. }));
    state
}

#[test]
fn begin_asks_for_the_project() {
    let (_, action) = SyncState::begin(7, "Board");
    match action {
        SyncAction::FindOrCreateProject { number, name } => {
            assert_eq!(number, 7);
            assert_eq!(name, "Board");
        }
        other => panic!("unexpected action {:?}", other),
    }
}

#[test]
fn sync_runs_pages_to_a_save() {
    let (state, _) = SyncState::begin(7, "Board");
    let (state, action) = state.step(SyncEvent::ProjectFound(Ok(project(Some(oid(1)), 42))));
    match action {
        SyncAction::CreateSnapshot { project_id, project_number } => {
            assert_eq!(project_id, oid(1));
            assert_eq!(project_number, 7);
        }
        other => panic!("unexpected action {:?}", other),
    }
    let (state, action) = state.step(SyncEvent::SnapshotCreated(Ok(snapshot(Some(oid(2))))));
    match action {
        SyncAction::FetchIssues { project_identifier, limit, after_cursor } => {
            assert_eq!(project_identifier, "42");
            assert_eq!(limit, Some(PAGE_LIMIT));
            assert_eq!(limit, Some(100));
            assert_eq!(after_cursor, None);
        }
        other => panic!("unexpected action {:?}", other),
    }
    let (state, action) = state.step(page(vec![issue(1), issue(2)], true, Some("c1")));
    match action {
        SyncAction::FetchIssues { project_identifier, limit, after_cursor } => {
            assert_eq!(project_identifier, "42");
            assert_eq!(limit, Some(100));
            assert_eq!(after_cursor.as_deref(), Some("c1"));
        }
        other => panic!("unexpected action {:?}", other),
    }
    let (state, action) = state.step(page(vec![issue(3)], false, Some("c2")));
    match action {
        SyncAction::SaveIssues { issues } => {
            let numbers: Vec<i32> = issues.iter().map(|i| i.number).collect();
            assert_eq!(numbers, vec![1, 2, 3]);
            for (k, saved) in issues.iter().enumerate() {
                let sent = issue(k as i32 + 1);
                assert_eq!(saved.snapshot_id, Some(oid(2)));
                assert_eq!(saved.title, sent.title);
                assert_eq!(saved.body, sent.body);
                assert_eq!(saved.status, sent.status);
                assert_eq!(saved.created_at, sent.created_at);
                assert_eq!(saved.updated_at, sent.updated_at);
                assert_eq!(saved.id, None);
            }
        }
        other => panic!("unexpected action {:?}", other),
    }
    let (_, action) = state.step(SyncEvent::IssuesSaved(Ok(vec!["a".to_string()])));
    assert!(matches!(action, SyncAction::Finish(Ok(()))));
}

#[test]
fn sync_negative_project_number_is_sent_as_text() {
    let (state, _) = SyncState::begin(-3, "Board");
    let (state, _) = state.step(SyncEvent::ProjectFound(Ok(project(Some(oid(1)), -3))));
    let (_, action) = state.step(SyncEvent::SnapshotCreated(Ok(snapshot(Some(oid(2))))));
    match action {
        SyncAction::FetchIssues { project_identifier, .. } => assert_eq!(project_identifier, "-3"),
        other => panic!("unexpected action {:?}", other),
    }
}

#[test]
fn sync_empty_first_page_finishes_without_saving() {
    let state = to_fetching(5);
    let (_, action) = state.step(page(vec![], true, Some("c1")));
    assert!(matches!(action, SyncAction::Finish(Ok(()))));
}

#[test]
fn sync_empty_later_page_saves_what_came_before() {
    let state = to_fetching(5);
    let (state, _) = state.step(page(vec![issue(1)], true, Some("c1")));
    let (_, action) = state.step(page(vec![], true, Some("c2")));
    match action {
        SyncAction::SaveIssues { issues } => {
            assert_eq!(issues.len(), 1);
            assert_eq!(issues[0].snapshot_id, Some(oid(2)));
        }
        other => panic!("unexpected action {:?}", other),
    }
}

#[test]
fn sync_project_without_id_fails() {
    let (state, _) = SyncState::begin(7, "Board");
    let (_, action) = state.step(SyncEvent::ProjectFound(Ok(project(None, 7))));
    match action {
        SyncAction::Finish(Err(ApplicationError::ProcessingError(m))) => {
            assert_eq!(m, "Project ID not found after creation/retrieval")
        }
        other => panic!("unexpected action {:?}", other),
    }
}

#[test]
fn sync_snapshot_without_id_fails() {
    let (state, _) = SyncState::begin(7, "Board");
    let (state, _) = state.step(SyncEvent::ProjectFound(Ok(project(Some(oid(1)), 7))));
    let (_, action) = state.step(SyncEvent::SnapshotCreated(Ok(snapshot(None))));
    match action {
        SyncAction::Finish(Err(ApplicationError::ProcessingError(m))) => {
            assert_eq!(m, "Snapshot ID not found after creation")
        }
        other => panic!("unexpected action {:?}", other),
    }
}

#[test]
fn sync_repository_failures_end_the_run() {
    let (state, _) = SyncState::begin(7, "Board");
    let (_, action) = state.step(SyncEvent::ProjectFound(Err(anyhow::Error::msg("no database"))));
    match action {
        SyncAction::Finish(Err(ApplicationError::RepositoryError(e))) => assert_eq!(e.to_string(), "no database"),
        other => panic!("unexpected action {:?}", other),
    }

    let (state, _) = SyncState::begin(7, "Board");
    let (state, _) = state.step(SyncEvent::ProjectFound(Ok(project(Some(oid(1)), 7))));
    let (_, action) = state.step(SyncEvent::SnapshotCreated(Err(anyhow::Error::msg("insert failed"))));
    match action {
        SyncAction::Finish(Err(ApplicationError::RepositoryError(e))) => assert_eq!(e.to_string(), "insert failed"),
        other => panic!("unexpected action {:?}", other),
    }

    let state = to_fetching(7);
    let (state, _) = state.step(page(vec![issue(1)], false, None));
    let (_, action) = state.step(SyncEvent::IssuesSaved(Err(anyhow::Error::msg("write failed"))));
    match action {
        SyncAction::Finish(Err(ApplicationError::RepositoryError(e))) => assert_eq!(e.to_string(), "write failed"),
        other => panic!("unexpected action {:?}", other),
    }
}

#[test]
fn sync_provider_failure_ends_the_run() {
    let state = to_fetching(7);
    let (_, action) = state.step(SyncEvent::IssuesFetched(Err(anyhow::Error::msg("rate limited"))));
    match action {
        SyncAction::Finish(Err(ApplicationError::ProviderError { source_error })) => {
            assert_eq!(source_error.to_string(), "rate limited")
        }
        other => panic!("unexpected action {:?}", other),
    }
}

#[test]
fn sync_rejects_events_out_of_turn() {
    let (state, _) = SyncState::begin(7, "Board");
    let (state, action) = state.step(SyncEvent::IssuesSaved(Ok(vec![])));
    match action {
        SyncAction::Finish(Err(ApplicationError::UnexpectedError(m))) => {
            assert_eq!(m, "The event does not fit the state of the synchronisation")
        }
        other => panic!("unexpected action {:?}", other),
    }
    let (_, action) = state.step(SyncEvent::ProjectFound(Ok(project(Some(oid(1)), 7))));
    assert!(matches!(action, SyncAction::Finish(Err(ApplicationError::UnexpectedError(_)))));
}
