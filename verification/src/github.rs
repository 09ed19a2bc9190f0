use vstd::prelude::*;
use crate::domain::{Issue, PageInfo};
use crate::time::{parse_rfc3339, rfc3339_instant, Timestamp};

verus! {

/// A GitHub user.
#[derive(Debug, Clone)]
pub struct GithubUser {
    pub id: String,
    pub login: String,
    pub url: String,
}

/// A label of an issue.
#[derive(Debug, Clone)]
pub struct GithubLabel {
    pub name: String,
}

/// The labels of an issue.
#[derive(Debug, Clone)]
pub struct GithubLabels {
    pub nodes: Vec<GithubLabel>,
}

/// The assignees of an issue.
#[derive(Debug, Clone)]
pub struct GithubAssignees {
    pub nodes: Vec<GithubUser>,
}

/// The custom field of a project that a value belongs to.
#[derive(Debug, Clone)]
pub struct GithubField {
    pub name: String,
}

/// The value of a custom field of a project for one issue. A number is held
/// by the bit pattern of its IEEE 754 double.
#[derive(Debug, Clone)]
pub struct GithubFieldValue {
    pub field: Option<GithubField>,
    pub number: Option<u64>,
    pub text: Option<String>,
}

/// The custom field values of a project item.
#[derive(Debug, Clone)]
pub struct GithubFieldValues {
    pub nodes: Vec<GithubFieldValue>,
}

/// The item that places an issue in a project.
#[derive(Debug, Clone)]
pub struct GithubProjectItem {
    pub field_values: GithubFieldValues,
}

/// The project items of an issue.
#[derive(Debug, Clone)]
pub struct GithubProjectItems {
    pub nodes: Vec<GithubProjectItem>,
}

/// An issue as GitHub's GraphQL API describes it.
#[derive(Debug, Clone)]
pub struct GithubIssue {
    pub id: Option<String>,
    pub url: Option<String>,
    pub number: Option<i32>,
    pub title: Option<String>,
    pub body: Option<String>,
    pub state: Option<String>,
    pub state_reason: Option<String>,
    pub created_at: Option<String>,
    pub updated_at: Option<String>,
    pub closed_at: Option<String>,
    pub labels: Option<GithubLabels>,
    pub assignees: Option<GithubAssignees>,
    pub project_items: Option<GithubProjectItems>,
}

/// Where a page of GitHub's answer ends.
#[derive(Debug, Clone)]
pub struct GithubPageInfo {
    pub has_next_page: bool,
    pub end_cursor: Option<String>,
}

/// An item of a project: the issue it holds, if it holds one.
#[derive(Debug, Clone)]
pub struct GithubItem {
    pub content: Option<GithubIssue>,
}

/// A page of the items of a project, with where it ends.
#[derive(Debug, Clone)]
pub struct GithubItems {
    pub page_info: GithubPageInfo,
    pub nodes: Vec<Option<GithubItem>>,
}

/// A project (version 2) of a GitHub organization.
#[derive(Debug, Clone)]
pub struct GithubProjectV2 {
    pub id: String,
    pub title: String,
    pub number: i32,
    pub url: String,
}

/// The variables of the query for a page of a project's issues.
#[derive(Debug, Clone)]
pub struct IssuesQueryVariables {
    pub organization: String,
    pub project_number: i32,
    pub limit: i32,
    pub after: Option<String>,
}

/// The variables of the query for a project.
#[derive(Debug, Clone)]
pub struct ProjectQueryVariables {
    pub organization: String,
    pub project_number: i32,
}

/// Why GitHub's answer to a query is refused.
#[derive(Debug, Clone, PartialEq, Eq)]
pub enum GithubQueryError {
    /// The HTTP status is not a success (200 to 299).
    HttpStatus(u16),
    /// The GraphQL answer reports errors; they are given as text.
    GraphQl(String),
}

/// How many issues a page holds when no limit is given.
pub const DEFAULT_ISSUE_LIMIT: i32 = 100;

/// The characters of `text`, or none when it is absent.
pub open spec fn text_or_empty(text: Option<String>) -> Seq<char> {
    match text {
        Some(t) => t@,
        None => Seq::empty(),
    }
}

/// The instant that `text` writes in RFC 3339, if it is present and is one.
pub open spec fn written_instant(text: Option<String>) -> Option<Timestamp> {
    match text {
        Some(t) => match rfc3339_instant(t@) {
            Some((secs, nanos)) => Some(Timestamp { secs, nanos }),
            None => None,
        },
        None => None,
    }
}

/// The instant that `text` writes in RFC 3339, or `fallback` when `text` is
/// absent or is no such date-time.
pub open spec fn instant_or(text: Option<String>, fallback: Timestamp) -> Timestamp {
    match text {
        Some(t) => match rfc3339_instant(t@) {
            Some((secs, nanos)) => Timestamp { secs, nanos },
            None => fallback,
        },
        None => fallback,
    }
}

/// `issue` is `gh` taken into the domain, with `now` for an absent or
/// unreadable instant: no id, project or snapshot yet, the title or an empty
/// one, the state as status and the number or 0.
pub open spec fn domain_issue_of(gh: GithubIssue, now: Timestamp, issue: Issue) -> bool {
    &&& issue.id is None
    &&& issue.title@ == text_or_empty(gh.title)
    &&& issue.body == gh.body
    &&& issue.status == gh.state
    &&& issue.number == (match gh.number { Some(n) => n, None => 0i32 })
    &&& issue.project_id is None
    &&& issue.snapshot_id is None
    &&& issue.created_at == instant_or(gh.created_at, now)
    &&& issue.updated_at == instant_or(gh.updated_at, now)
}

/// The text held in `text`, or an empty `String`.
pub fn take_text_or_empty(text: Option<String>) -> (r: String)
    ensures
        r@ == text_or_empty(text),
{
    match text {
        Some(t) => t,
        None => String::new(),
    }
}

/// The instant written in `text`, or `fallback`.
pub fn read_instant_or(text: &Option<String>, fallback: Timestamp) -> (r: Timestamp)
    requires
        fallback.wf(),
    ensures
        r == instant_or(*text, fallback),
        r.wf(),
{
    match text {
        Some(t) => match parse_rfc3339(t.as_str()) {
            Some(instant) => instant,
            None => fallback,
        },
        None => fallback,
    }
}

/// Takes an issue of GitHub into the domain, `now` standing for an absent or
/// unreadable instant.
pub fn to_domain_issue(gh: GithubIssue, now: Timestamp) -> (r: Issue)
    requires
        now.wf(),
    ensures
        domain_issue_of(gh, now, r),
        r.wf(),
{
    let created_at = read_instant_or(&gh.created_at, now);
    let updated_at = read_instant_or(&gh.updated_at, now);
    let number = match gh.number {
        Some(n) => n,
        None => 0,
    };
    Issue {
        id: None,
        title: take_text_or_empty(gh.title),
        body: gh.body,
        status: gh.state,
        number,
        project_id: None,
        snapshot_id: None,
        created_at,
        updated_at,
    }
}

/// The page information of GitHub taken into the domain.
pub fn to_domain_page_info(info: GithubPageInfo) -> (r: PageInfo)
    ensures
        r.has_next_page == info.has_next_page,
        r.end_cursor == info.end_cursor,
{
    PageInfo { has_next_page: info.has_next_page, end_cursor: info.end_cursor }
}

/// The variables of the query for the page of issues after `after`, of the
/// project numbered `project_number` of `organization`; at most `limit`
/// issues, 100 when no limit is given.
pub fn issues_query_variables(
    organization: &str,
    project_number: i32,
    limit: Option<i32>,
    after: Option<String>,
) -> (r: IssuesQueryVariables)
    ensures
        r.organization@ == organization@,
        r.project_number == project_number,
        r.limit == (match limit { Some(l) => l, None => DEFAULT_ISSUE_LIMIT }),
        r.after == after,
{
    let limit = match limit {
        Some(l) => l,
        None => DEFAULT_ISSUE_LIMIT,
    };
    IssuesQueryVariables { organization: organization.to_owned(), project_number, limit, after }
}

/// The variables of the query for the project numbered `project_number` of
/// `organization`.
pub fn project_query_variables(organization: &str, project_number: i32) -> (r: ProjectQueryVariables)
    ensures
        r.organization@ == organization@,
        r.project_number == project_number,
{
    ProjectQueryVariables { organization: organization.to_owned(), project_number }
}

/// Whether GitHub's answer can be read: its HTTP `status` must be a success
/// (200 to 299) and the answer must report no `errors`; the status is looked
/// at first.
pub fn check_reply(status: u16, errors: Option<String>) -> (r: Result<(), GithubQueryError>)
    ensures
        !(200 <= status <= 299) ==> r == Err::<(), GithubQueryError>(GithubQueryError::HttpStatus(status)),
        200 <= status <= 299 ==> r == (match errors {
            Some(e) => Err(GithubQueryError::GraphQl(e)),
            None => Ok(()),
        }),
{
    if !(200 <= status && status <= 299) {
        Err(GithubQueryError::HttpStatus(status))
    } else {
        match errors {
            Some(e) => Err(GithubQueryError::GraphQl(e)),
            None => Ok(()),
        }
    }
}

/// The issues that the items `nodes` hold, in their order; an absent item,
/// or one that holds no issue, gives none.
pub open spec fn item_issues(nodes: Seq<Option<GithubItem>>) -> Seq<GithubIssue>
    decreases nodes.len(),
{
    if nodes.len() == 0 {
        Seq::empty()
    } else {
        let rest = item_issues(nodes.drop_last());
        match nodes.last() {
            Some(item) => match item.content {
                Some(issue) => rest.push(issue),
                None => rest,
            },
            None => rest,
        }
    }
}

/// The issues of a page of a project's items and where the page ends; a
/// project whose answer holds no items gives no issues and no next page.
pub fn page_of_items(items: Option<GithubItems>) -> (r: (Vec<GithubIssue>, GithubPageInfo))
    ensures
        match items {
            Some(page) => r.0@ == item_issues(page.nodes@) && r.1 == page.page_info,
            None => r.0@ == Seq::<GithubIssue>::empty()
                && r.1 == (GithubPageInfo { has_next_page: false, end_cursor: None }),
        },
{
    match items {
        Some(page) => {
            let ghost all = page.nodes@;
            let mut issues: Vec<GithubIssue> = Vec::new();
            proof {
                assert(all.take(0) =~= Seq::<Option<GithubItem>>::empty());
            }
            for node in it: page.nodes.into_iter()
                invariant
                    it.seq() == all,
                    issues@ == item_issues(all.take(it.index() as int)),
            {
                proof {
                    assert(all.take(it.index() + 1).drop_last() =~= all.take(it.index() as int));
                }
                match node {
                    Some(item) => match item.content {
                        Some(issue) => issues.push(issue),
                        None => {},
                    },
                    None => {},
                }
            }
            proof {
                assert(all.take(all.len() as int) =~= all);
            }
            (issues, page.page_info)
        },
        None => (Vec::new(), GithubPageInfo { has_next_page: false, end_cursor: None }),
    }
}

/// Each item that holds an issue contributes that issue, after those of the
/// items before it: no item is dropped, whatever the number of items.
pub proof fn lemma_item_issues_push_issue(nodes: Seq<Option<GithubItem>>, item: GithubItem, issue: GithubIssue)
    requires
        item.content == Some(issue),
    ensures
        item_issues(nodes.push(Some(item))) == item_issues(nodes).push(issue),
        item_issues(nodes.push(Some(item))).len() == item_issues(nodes).len() + 1,
        item_issues(nodes.push(Some(item)))[item_issues(nodes).len() as int] == issue,
{
    assert(nodes.push(Some(item)).drop_last() =~= nodes);
}

/// An absent item, or one that holds no issue, contributes nothing.
pub proof fn lemma_item_issues_push_nothing(nodes: Seq<Option<GithubItem>>, node: Option<GithubItem>)
    requires
        node matches Some(item) ==> item.content is None,
    ensures
        item_issues(nodes.push(node)) == item_issues(nodes),
{
    assert(nodes.push(node).drop_last() =~= nodes);
}

/// The issues of the items of `a` and then `b` are the issues of `a`
/// followed by those of `b`.
pub proof fn lemma_item_issues_append(a: Seq<Option<GithubItem>>, b: Seq<Option<GithubItem>>)
    ensures
        item_issues(a + b) == item_issues(a) + item_issues(b),
    decreases b.len(),
{
    if b.len() == 0 {
        assert(a + b =~= a);
        assert(item_issues(a) + item_issues(b) =~= item_issues(a));
    } else {
        lemma_item_issues_append(a, b.drop_last());
        assert((a + b).drop_last() =~= a + b.drop_last());
        assert(item_issues(a + b) =~= item_issues(a) + item_issues(b));
    }
}

/// When every item holds an issue, the page gives exactly those issues, one
/// per item, in the items' order.
pub proof fn lemma_item_issues_all_present(nodes: Seq<Option<GithubItem>>)
    requires
        forall|i: int| 0 <= i < nodes.len() ==> ((#[trigger] nodes[i]) matches Some(item) && item.content is Some),
    ensures
        item_issues(nodes).len() == nodes.len(),
        forall|i: int| 0 <= i < nodes.len() ==> Some(#[trigger] item_issues(nodes)[i]) == nodes[i].unwrap().content,
    decreases nodes.len(),
{
    if nodes.len() > 0 {
        let rest = nodes.drop_last();
        assert forall|i: int| 0 <= i < rest.len() implies ((#[trigger] rest[i]) matches Some(item) && item.content is Some) by {
            assert(rest[i] == nodes[i]);
        }
        lemma_item_issues_all_present(rest);
        assert(nodes[nodes.len() - 1] matches Some(item) && item.content is Some);
        assert forall|i: int| 0 <= i < nodes.len() implies Some(#[trigger] item_issues(nodes)[i]) == nodes[i].unwrap().content by {
            if i < nodes.len() - 1 {
                assert(rest[i] == nodes[i]);
            }
        }
    }
}

/// A present text is kept as it is and an absent one becomes empty.
pub proof fn lemma_text_or_empty_keeps_text(text: Option<String>)
    ensures
        text matches Some(t) ==> text_or_empty(text) == t@,
        text is None ==> text_or_empty(text).len() == 0,
{
}

/// The fallback stands exactly for an absent or unreadable date-time; a
/// readable one is taken as written.
pub proof fn lemma_instant_or_falls_back(text: Option<String>, fallback: Timestamp)
    ensures
        written_instant(text) matches Some(t) ==> instant_or(text, fallback) == t,
        written_instant(text) is None ==> instant_or(text, fallback) == fallback,
        text is None ==> instant_or(text, fallback) == fallback,
{
}

} // verus!
