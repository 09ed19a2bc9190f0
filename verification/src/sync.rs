use vstd::prelude::*;
use crate::application::ApplicationError;
use crate::decimal::{format_i32, i32_text, lemma_parse_format_round_trip, parse_i32_spec, IntErrorKind};
use crate::domain::{Issue, PageInfo, Project, Snapshot};
use crate::ids::ObjectId;
use crate::text::owned_text;

verus! {

/// How many issues one page asks for.
pub const PAGE_LIMIT: i32 = 100;

/// What the synchronisation asks its driver to do next.
#[derive(Debug)]
pub enum SyncAction {
    /// Find the project with this number, or create it with this name.
    FindOrCreateProject { number: i32, name: String },
    /// Create a snapshot of the project.
    CreateSnapshot { project_id: ObjectId, project_number: i32 },
    /// Fetch the page of issues that follows `after_cursor`.
    FetchIssues { project_identifier: String, limit: Option<i32>, after_cursor: Option<String> },
    /// Save these issues.
    SaveIssues { issues: Vec<Issue> },
    /// The synchronisation is over, with this outcome.
    Finish(Result<(), ApplicationError>),
}

/// What the driver reports back after doing an action.
#[derive(Debug)]
pub enum SyncEvent {
    ProjectFound(Result<Project, anyhow::Error>),
    SnapshotCreated(Result<Snapshot, anyhow::Error>),
    IssuesFetched(Result<(Vec<Issue>, PageInfo), anyhow::Error>),
    IssuesSaved(Result<Vec<String>, anyhow::Error>),
}

/// Where a synchronisation stands.
pub enum SyncState {
    /// Waiting for the project.
    AwaitingProject { project_number: i32 },
    /// Waiting for the snapshot of `project`, which has an id.
    AwaitingSnapshot { project_number: i32, project: Project },
    /// Fetching pages of issues; `fetched` are the issues of the pages so
    /// far, as they came, and `collected` the same issues stamped with the
    /// snapshot id.
    Fetching {
        project: Project,
        snapshot_id: ObjectId,
        collected: Vec<Issue>,
        fetched: Ghost<Seq<Issue>>,
    },
    /// Waiting for the issues to be saved.
    AwaitingSave,
    /// Over; every further event is unexpected.
    Finished,
}

/// `issue` carrying the id of the snapshot `sid`.
pub open spec fn with_snapshot(issue: Issue, sid: ObjectId) -> Issue {
    Issue { snapshot_id: Some(sid), ..issue }
}

/// Each of `issues` carrying the id of the snapshot `sid`.
pub open spec fn stamped(issues: Seq<Issue>, sid: ObjectId) -> Seq<Issue> {
    issues.map_values(|i: Issue| with_snapshot(i, sid))
}

/// The text of the error when the project has no id.
pub open spec fn project_id_missing() -> Seq<char> {
    "Project ID not found after creation/retrieval"@
}

/// The text of the error when the snapshot has no id.
pub open spec fn snapshot_id_missing() -> Seq<char> {
    "Snapshot ID not found after creation"@
}

/// The text of the error when an event does not fit the state.
pub open spec fn event_unexpected() -> Seq<char> {
    "The event does not fit the state of the synchronisation"@
}

/// `action` fetches the page of the project numbered `number` after `cursor`.
pub open spec fn fetches(action: SyncAction, number: i32, cursor: Option<String>) -> bool {
    &&& action matches SyncAction::FetchIssues { project_identifier, limit, after_cursor }
    &&& project_identifier@ == i32_text(number)
    &&& limit == Some(PAGE_LIMIT)
    &&& after_cursor == cursor
}

/// The synchronisation ends with `error`.
pub open spec fn fails_with(next: SyncState, action: SyncAction, error: ApplicationError) -> bool {
    next is Finished && action == SyncAction::Finish(Err(error))
}

/// The synchronisation ends with a `ProcessingError` whose text is `text`.
pub open spec fn fails_processing(next: SyncState, action: SyncAction, text: Seq<char>) -> bool {
    &&& next is Finished
    &&& action matches SyncAction::Finish(Err(ApplicationError::ProcessingError(m)))
    &&& m@ == text
}

/// The synchronisation ends because an event came that does not fit.
pub open spec fn rejects(next: SyncState, action: SyncAction) -> bool {
    &&& next is Finished
    &&& action matches SyncAction::Finish(Err(ApplicationError::UnexpectedError(m)))
    &&& m@ == event_unexpected()
}

/// After all pages: save the stamped issues, or finish when there are none.
pub open spec fn saves(next: SyncState, action: SyncAction, all: Seq<Issue>, sid: ObjectId) -> bool {
    if all.len() == 0 {
        next is Finished && action == SyncAction::Finish(Ok(()))
    } else {
        &&& next is AwaitingSave
        &&& action matches SyncAction::SaveIssues { issues }
        &&& issues@ == stamped(all, sid)
    }
}

/// The transitions of a synchronisation: from `state` on `event` to `next`,
/// asking for `action`.
pub open spec fn transition(state: SyncState, event: SyncEvent, next: SyncState, action: SyncAction) -> bool {
    match state {
        SyncState::AwaitingProject { project_number } => match event {
            SyncEvent::ProjectFound(Ok(project)) => match project.id {
                Some(pid) => {
                    &&& next == SyncState::AwaitingSnapshot { project_number, project }
                    &&& action == SyncAction::CreateSnapshot { project_id: pid, project_number }
                },
                None => fails_processing(next, action, project_id_missing()),
            },
            SyncEvent::ProjectFound(Err(e)) => fails_with(next, action, ApplicationError::RepositoryError(e)),
            _ => rejects(next, action),
        },
        SyncState::AwaitingSnapshot { project_number, project } => match event {
            SyncEvent::SnapshotCreated(Ok(snapshot)) => match snapshot.id {
                Some(sid) => {
                    &&& next matches SyncState::Fetching { project: p, snapshot_id, collected, fetched }
                    &&& p == project
                    &&& snapshot_id == sid
                    &&& collected@ == Seq::<Issue>::empty()
                    &&& fetched@ == Seq::<Issue>::empty()
                    &&& fetches(action, project.number, None)
                },
                None => fails_processing(next, action, snapshot_id_missing()),
            },
            SyncEvent::SnapshotCreated(Err(e)) => fails_with(next, action, ApplicationError::RepositoryError(e)),
            _ => rejects(next, action),
        },
        SyncState::Fetching { project, snapshot_id, collected, fetched } => match event {
            SyncEvent::IssuesFetched(Ok((page, info))) => {
                let all = fetched@ + page@;
                if page@.len() > 0 && info.has_next_page {
                    &&& next matches SyncState::Fetching { project: p, snapshot_id: s, collected: c, fetched: f }
                    &&& p == project
                    &&& s == snapshot_id
                    &&& f@ == all
                    &&& c@ == stamped(all, snapshot_id)
                    &&& fetches(action, project.number, info.end_cursor)
                } else {
                    saves(next, action, all, snapshot_id)
                }
            },
            SyncEvent::IssuesFetched(Err(e)) => fails_with(
                next,
                action,
                ApplicationError::ProviderError { source_error: e },
            ),
            _ => rejects(next, action),
        },
        SyncState::AwaitingSave => match event {
            SyncEvent::IssuesSaved(Ok(_)) => next is Finished && action == SyncAction::Finish(Ok(())),
            SyncEvent::IssuesSaved(Err(e)) => fails_with(next, action, ApplicationError::RepositoryError(e)),
            _ => rejects(next, action),
        },
        SyncState::Finished => rejects(next, action),
    }
}

impl SyncState {
    /// The issues collected so far are the fetched ones, stamped; a project
    /// waiting for its snapshot has an id.
    pub open spec fn wf(&self) -> bool {
        match self {
            SyncState::AwaitingSnapshot { project, .. } => project.id is Some,
            SyncState::Fetching { snapshot_id, collected, fetched, .. } => collected@ == stamped(fetched@, *snapshot_id),
            _ => true,
        }
    }

    /// Starts the synchronisation of the project numbered `project_number`,
    /// named `project_name` if it has to be created: the first action finds
    /// or creates it.
    pub fn begin(project_number: i32, project_name: &str) -> (r: (SyncState, SyncAction))
        ensures
            r.0 == (SyncState::AwaitingProject { project_number }),
            r.1 matches SyncAction::FindOrCreateProject { number, name }
                && number == project_number && name@ == project_name@,
    {
        (
            SyncState::AwaitingProject { project_number },
            SyncAction::FindOrCreateProject { number: project_number, name: owned_text(project_name) },
        )
    }

    /// Takes the outcome of the last action and says what comes next.
    pub fn step(self, event: SyncEvent) -> (r: (SyncState, SyncAction))
        requires
            self.wf(),
        ensures
            r.0.wf(),
            transition(self, event, r.0, r.1),
    {
        match self {
            SyncState::AwaitingProject { project_number } => match event {
                SyncEvent::ProjectFound(Ok(project)) => match project.id {
                    Some(pid) => (
                        SyncState::AwaitingSnapshot { project_number, project },
                        SyncAction::CreateSnapshot { project_id: pid, project_number },
                    ),
                    None => processing_failure(owned_text("Project ID not found after creation/retrieval")),
                },
                SyncEvent::ProjectFound(Err(e)) => (
                    SyncState::Finished,
                    SyncAction::Finish(Err(ApplicationError::RepositoryError(e))),
                ),
                _ => rejection(),
            },
            SyncState::AwaitingSnapshot { project_number: _, project } => match event {
                SyncEvent::SnapshotCreated(Ok(snapshot)) => match snapshot.id {
                    Some(sid) => {
                        let action = fetch_action(project.number, None);
                        proof {
                            assert(stamped(Seq::<Issue>::empty(), sid) =~= Seq::<Issue>::empty());
                        }
                        (
                            SyncState::Fetching {
                                project,
                                snapshot_id: sid,
                                collected: Vec::new(),
                                fetched: Ghost(Seq::empty()),
                            },
                            action,
                        )
                    },
                    None => processing_failure(owned_text("Snapshot ID not found after creation")),
                },
                SyncEvent::SnapshotCreated(Err(e)) => (
                    SyncState::Finished,
                    SyncAction::Finish(Err(ApplicationError::RepositoryError(e))),
                ),
                _ => rejection(),
            },
            SyncState::Fetching { project, snapshot_id, collected, fetched } => match event {
                SyncEvent::IssuesFetched(Ok((page, info))) => {
                    let ghost all = fetched@ + page@;
                    let empty_page = page.len() == 0;
                    let mut collected = collected;
                    stamp_into(&mut collected, page, snapshot_id);
                    proof {
                        assert(collected@ =~= stamped(all, snapshot_id));
                    }
                    if !empty_page && info.has_next_page {
                        let action = fetch_action(project.number, info.end_cursor);
                        (
                            SyncState::Fetching { project, snapshot_id, collected, fetched: Ghost(all) },
                            action,
                        )
                    } else if collected.len() == 0 {
                        (SyncState::Finished, SyncAction::Finish(Ok(())))
                    } else {
                        (SyncState::AwaitingSave, SyncAction::SaveIssues { issues: collected })
                    }
                },
                SyncEvent::IssuesFetched(Err(e)) => (
                    SyncState::Finished,
                    SyncAction::Finish(Err(ApplicationError::ProviderError { source_error: e })),
                ),
                _ => rejection(),
            },
            SyncState::AwaitingSave => match event {
                SyncEvent::IssuesSaved(Ok(_)) => (SyncState::Finished, SyncAction::Finish(Ok(()))),
                SyncEvent::IssuesSaved(Err(e)) => (
                    SyncState::Finished,
                    SyncAction::Finish(Err(ApplicationError::RepositoryError(e))),
                ),
                _ => rejection(),
            },
            SyncState::Finished => rejection(),
        }
    }
}

fn processing_failure(message: String) -> (r: (SyncState, SyncAction))
    ensures
        fails_processing(r.0, r.1, message@),
{
    (SyncState::Finished, SyncAction::Finish(Err(ApplicationError::ProcessingError(message))))
}

fn rejection() -> (r: (SyncState, SyncAction))
    ensures
        rejects(r.0, r.1),
{
    (
        SyncState::Finished,
        SyncAction::Finish(
            Err(ApplicationError::UnexpectedError(owned_text("The event does not fit the state of the synchronisation"))),
        ),
    )
}

fn fetch_action(number: i32, cursor: Option<String>) -> (r: SyncAction)
    ensures
        fetches(r, number, cursor),
{
    SyncAction::FetchIssues { project_identifier: format_i32(number), limit: Some(PAGE_LIMIT), after_cursor: cursor }
}

/// Appends `page` to `collected`, each issue carrying the snapshot id `sid`.
fn stamp_into(collected: &mut Vec<Issue>, page: Vec<Issue>, sid: ObjectId)
    ensures
        final(collected)@ == old(collected)@ + stamped(page@, sid),
{
    let ghost start = collected@;
    let ghost whole = page@;
    for issue in it: page.into_iter()
        invariant
            it.seq() == whole,
            collected@ == start + stamped(whole.take(it.index() as int), sid),
    {
        let mut issue = issue;
        issue.snapshot_id = Some(sid);
        proof {
            assert(whole.take(it.index() + 1) =~= whole.take(it.index() as int).push(whole[it.index() as int]));
        }
        collected.push(issue);
        proof {
            assert(collected@ =~= start + stamped(whole.take(it.index() + 1), sid));
        }
    }
    assert(whole.take(whole.len() as int) =~= whole);
}

/// Stamping keeps the issues and their order and changes only the snapshot
/// id: the `i`-th stamped issue is the `i`-th issue carrying `sid`.
pub proof fn lemma_stamped_issues(issues: Seq<Issue>, sid: ObjectId)
    ensures
        stamped(issues, sid).len() == issues.len(),
        forall|i: int| 0 <= i < issues.len() ==> {
            let s = #[trigger] stamped(issues, sid)[i];
            &&& s.snapshot_id == Some(sid)
            &&& s.id == issues[i].id
            &&& s.title == issues[i].title
            &&& s.body == issues[i].body
            &&& s.status == issues[i].status
            &&& s.number == issues[i].number
            &&& s.project_id == issues[i].project_id
            &&& s.created_at == issues[i].created_at
            &&& s.updated_at == issues[i].updated_at
        },
{
}

/// Stamping the issues of two pages one after the other is stamping them
/// together.
pub proof fn lemma_stamped_append(a: Seq<Issue>, b: Seq<Issue>, sid: ObjectId)
    ensures
        stamped(a + b, sid) == stamped(a, sid) + stamped(b, sid),
{
    assert(stamped(a + b, sid) =~= stamped(a, sid) + stamped(b, sid));
}

/// The project identifier that the synchronisation hands to the provider of
/// issues reads back, as an `i32`, as the number of the project.
pub proof fn lemma_fetch_identifier_reads_back(action: SyncAction, number: i32, cursor: Option<String>)
    requires
        fetches(action, number, cursor),
    ensures
        action matches SyncAction::FetchIssues { project_identifier, .. }
            && parse_i32_spec(project_identifier@) == Ok::<i32, IntErrorKind>(number),
{
    lemma_parse_format_round_trip(number);
}

/// The issues of `pages`, page after page.
pub open spec fn concat_pages(pages: Seq<Seq<Issue>>) -> Seq<Issue>
    decreases pages.len(),
{
    if pages.len() == 0 {
        Seq::empty()
    } else {
        concat_pages(pages.drop_last()) + pages.last()
    }
}

/// The event of fetching the page `i`, `i` of `n`, in a run whose pages are
/// `pages`: every page but the last is not empty and has a next page; the
/// last one is empty or has none.
pub open spec fn fetched_page(event: SyncEvent, pages: Seq<Seq<Issue>>, i: int) -> bool {
    &&& event matches SyncEvent::IssuesFetched(Ok((page, info)))
    &&& page@ == pages[i]
    &&& i < pages.len() - 1 ==> page@.len() > 0 && info.has_next_page
    &&& i == pages.len() - 1 ==> page@.len() == 0 || !info.has_next_page
}

proof fn lemma_fetch_prefix(
    states: Seq<SyncState>,
    events: Seq<SyncEvent>,
    actions: Seq<SyncAction>,
    pages: Seq<Seq<Issue>>,
    sid: ObjectId,
    i: int,
)
    requires
        pages.len() >= 1,
        events.len() == pages.len(),
        actions.len() == pages.len(),
        states.len() == pages.len() + 1,
        states[0] matches SyncState::Fetching { snapshot_id, fetched, .. }
            && snapshot_id == sid && fetched@ == Seq::<Issue>::empty(),
        forall|k: int| 0 <= k < pages.len() ==> #[trigger] transition(states[k], events[k], states[k + 1], actions[k]),
        forall|k: int| 0 <= k < pages.len() ==> #[trigger] fetched_page(events[k], pages, k),
        0 <= i < pages.len(),
    ensures
        states[i] matches SyncState::Fetching { snapshot_id, fetched, .. }
            && snapshot_id == sid && fetched@ == concat_pages(pages.take(i)),
    decreases i,
{
    if i == 0 {
        assert(pages.take(0) =~= Seq::<Seq<Issue>>::empty());
    } else {
        lemma_fetch_prefix(states, events, actions, pages, sid, i - 1);
        let k = i - 1;
        assert(transition(states[k], events[k], states[k + 1], actions[k]));
        assert(fetched_page(events[k], pages, k));
        assert(pages.take(i).drop_last() =~= pages.take(i - 1));
    }
}

/// A run of fetches that starts with no issues and goes through the pages
/// `pages` ends by saving exactly the issues of all pages, page after page
/// and in the order of each page, every one stamped with the snapshot id;
/// when the pages hold no issue, it finishes without saving.
pub proof fn lemma_fetch_run_saves_all_pages(
    states: Seq<SyncState>,
    events: Seq<SyncEvent>,
    actions: Seq<SyncAction>,
    pages: Seq<Seq<Issue>>,
    sid: ObjectId,
)
    requires
        pages.len() >= 1,
        events.len() == pages.len(),
        actions.len() == pages.len(),
        states.len() == pages.len() + 1,
        states[0] matches SyncState::Fetching { snapshot_id, fetched, .. }
            && snapshot_id == sid && fetched@ == Seq::<Issue>::empty(),
        forall|k: int| 0 <= k < pages.len() ==> #[trigger] transition(states[k], events[k], states[k + 1], actions[k]),
        forall|k: int| 0 <= k < pages.len() ==> #[trigger] fetched_page(events[k], pages, k),
    ensures
        saves(states[pages.len() as int], actions[pages.len() - 1], concat_pages(pages), sid),
        concat_pages(pages).len() == 0 ==> actions[pages.len() - 1] == SyncAction::Finish(Ok(())),
        concat_pages(pages).len() > 0 ==> {
            &&& states[pages.len() as int] is AwaitingSave
            &&& actions[pages.len() - 1] matches SyncAction::SaveIssues { issues }
            &&& issues@.len() == concat_pages(pages).len()
            &&& forall|i: int| 0 <= i < issues@.len() ==>
                #[trigger] issues@[i] == (Issue { snapshot_id: Some(sid), ..concat_pages(pages)[i] })
        },
{
    let n = pages.len() as int;
    lemma_fetch_prefix(states, events, actions, pages, sid, n - 1);
    let k = n - 1;
    assert(transition(states[k], events[k], states[k + 1], actions[k]));
    assert(fetched_page(events[k], pages, k));
    assert(pages.drop_last() =~= pages.take(n - 1));
    if concat_pages(pages).len() > 0 {
        lemma_stamped_issues(concat_pages(pages), sid);
    }
}

/// The issues of pages fetched one after another are those of the earlier
/// pages followed by those of the new page, in its order.
pub proof fn lemma_concat_pages_push(pages: Seq<Seq<Issue>>, page: Seq<Issue>)
    ensures
        concat_pages(pages.push(page)) == concat_pages(pages) + page,
        concat_pages(pages.push(page)).len() == concat_pages(pages).len() + page.len(),
        forall|j: int| 0 <= j < page.len() ==>
            #[trigger] concat_pages(pages.push(page))[concat_pages(pages).len() + j] == page[j],
{
    assert(pages.push(page).drop_last() =~= pages);
}

/// On the last page (empty, or without a next page) the synchronisation
/// saves every issue fetched before and every issue of that page, in that
/// order, each carrying the snapshot id and otherwise unchanged; when no
/// issue came at all it finishes without saving.
pub proof fn lemma_last_page_saves_every_issue(
    project: Project,
    sid: ObjectId,
    collected: Vec<Issue>,
    fetched: Ghost<Seq<Issue>>,
    page: Vec<Issue>,
    info: PageInfo,
    next: SyncState,
    action: SyncAction,
)
    requires
        transition(
            SyncState::Fetching { project, snapshot_id: sid, collected, fetched },
            SyncEvent::IssuesFetched(Ok((page, info))),
            next,
            action,
        ),
        page@.len() == 0 || !info.has_next_page,
    ensures
        fetched@.len() + page@.len() == 0 ==> next is Finished && action == SyncAction::Finish(Ok(())),
        fetched@.len() + page@.len() > 0 ==> {
            &&& next is AwaitingSave
            &&& action matches SyncAction::SaveIssues { issues }
            &&& issues@.len() == fetched@.len() + page@.len()
            &&& forall|i: int| 0 <= i < fetched@.len() ==>
                #[trigger] issues@[i] == (Issue { snapshot_id: Some(sid), ..fetched@[i] })
            &&& forall|j: int| 0 <= j < page@.len() ==>
                #[trigger] issues@[fetched@.len() + j] == (Issue { snapshot_id: Some(sid), ..page@[j] })
        },
{
    let all = fetched@ + page@;
    if all.len() > 0 {
        lemma_stamped_issues(all, sid);
        assert forall|j: int| 0 <= j < page@.len() implies all[fetched@.len() + j] == page@[j] by {}
    }
}

/// While pages with a next page come, the synchronisation keeps every issue
/// fetched so far and appends the new page's issues, stamped, in order, and
/// asks for the page after the cursor.
pub proof fn lemma_next_page_keeps_every_issue(
    project: Project,
    sid: ObjectId,
    collected: Vec<Issue>,
    fetched: Ghost<Seq<Issue>>,
    page: Vec<Issue>,
    info: PageInfo,
    next: SyncState,
    action: SyncAction,
)
    requires
        transition(
            SyncState::Fetching { project, snapshot_id: sid, collected, fetched },
            SyncEvent::IssuesFetched(Ok((page, info))),
            next,
            action,
        ),
        page@.len() > 0,
        info.has_next_page,
    ensures
        next matches SyncState::Fetching { collected: c, fetched: f, snapshot_id: s, .. } && {
            &&& s == sid
            &&& f@ == fetched@ + page@
            &&& c@.len() == fetched@.len() + page@.len()
            &&& forall|i: int| 0 <= i < fetched@.len() ==>
                #[trigger] c@[i] == (Issue { snapshot_id: Some(sid), ..fetched@[i] })
            &&& forall|j: int| 0 <= j < page@.len() ==>
                #[trigger] c@[fetched@.len() + j] == (Issue { snapshot_id: Some(sid), ..page@[j] })
        },
        action matches SyncAction::FetchIssues { after_cursor, limit, .. }
            && after_cursor == info.end_cursor && limit == Some(PAGE_LIMIT),
{
    let all = fetched@ + page@;
    lemma_stamped_issues(all, sid);
    assert forall|j: int| 0 <= j < page@.len() implies all[fetched@.len() + j] == page@[j] by {}
}

} // verus!
