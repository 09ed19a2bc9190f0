use vstd::prelude::*;
use crate::domain::{Issue, Project, Snapshot};
use crate::github::{
    instant_or, read_instant_or, text_or_empty, take_text_or_empty, written_instant, GithubFieldValue,
    GithubAssignees, GithubIssue, GithubLabels, GithubProjectItem, GithubProjectV2, GithubUser,
};
use crate::time::parse_rfc3339;
use crate::text::text_equals;
use crate::ids::{hex_text, ObjectId};
use crate::text::owned_text;
use crate::time::{
    instant_of_millis, lemma_instant_round_trip, lemma_millis_round_trip, millis_of, to_bson_date_time,
    to_timestamp, BsonDateTime, Timestamp, MAX_UTC_MILLIS, MIN_UTC_MILLIS,
};

verus! {

/// A user as the store keeps it.
#[derive(Debug, Clone)]
pub struct UserModel {
    pub id: String,
    pub login: String,
    pub url: String,
}

/// An issue as the store keeps it. `estimate` and `hours` are held by the
/// bit patterns of their IEEE 754 doubles.
#[derive(Debug, Clone)]
pub struct IssueModel {
    pub id: ObjectId,
    pub snapshot_id: ObjectId,
    pub github_issue_id: String,
    pub url: String,
    pub title: String,
    pub body: Option<String>,
    pub number: i32,
    pub project_id: Option<ObjectId>,
    pub state: String,
    pub state_reason: Option<String>,
    pub label: Option<String>,
    pub estimate: Option<u64>,
    pub hours: Option<u64>,
    pub iteration: Option<String>,
    pub start_date: Option<String>,
    pub end_date: Option<String>,
    pub assigned: Option<UserModel>,
    pub created_at: BsonDateTime,
    pub updated_at: BsonDateTime,
    pub closed_at: Option<BsonDateTime>,
}

/// A project as the store keeps it.
#[derive(Debug, Clone)]
pub struct ProjectModel {
    pub id: ObjectId,
    pub github_id: Option<String>,
    pub owner_id: Option<String>,
    pub title: String,
    pub number: i32,
    pub url: Option<String>,
    pub created_at: BsonDateTime,
    pub updated_at: BsonDateTime,
}

/// A snapshot as the store keeps it.
#[derive(Debug, Clone)]
pub struct SnapshotModel {
    pub id: ObjectId,
    pub project_id: ObjectId,
    pub project_number: i32,
    pub created_at: BsonDateTime,
}

/// The owner recorded for a project read from GitHub.
pub open spec fn default_owner() -> Seq<char> {
    "somossoftrek"@
}

impl UserModel {
    /// The user of GitHub as the store keeps it.
    pub fn from_github_user(user: GithubUser) -> (r: UserModel)
        ensures
            r.id == user.id,
            r.login == user.login,
            r.url == user.url,
    {
        UserModel { id: user.id, login: user.login, url: user.url }
    }
}

/// `model` keeps `issue` under the id `id`: title, body, number, project and
/// snapshot as they are, the status as state (empty when absent), the
/// instants truncated to milliseconds, and nothing of what only GitHub
/// tells.
pub open spec fn issue_model_of(issue: Issue, id: ObjectId, model: IssueModel) -> bool {
    &&& model.id == id
    &&& model.snapshot_id == issue.snapshot_id.unwrap()
    &&& model.github_issue_id@ == Seq::<char>::empty()
    &&& model.url@ == Seq::<char>::empty()
    &&& model.title == issue.title
    &&& model.body == issue.body
    &&& model.number == issue.number
    &&& model.project_id == issue.project_id
    &&& model.state@ == text_or_empty(issue.status)
    &&& model.state_reason is None
    &&& model.label is None
    &&& model.estimate is None
    &&& model.hours is None
    &&& model.iteration is None
    &&& model.start_date is None
    &&& model.end_date is None
    &&& model.assigned is None
    &&& model.created_at.millis == millis_of(issue.created_at)
    &&& model.updated_at.millis == millis_of(issue.updated_at)
    &&& model.closed_at is None
}

/// `model` keeps `issue` under the issue's own id, or under some fresh id
/// when the issue has none.
pub open spec fn issue_model_keeps(issue: Issue, model: IssueModel) -> bool {
    &&& issue_model_of(issue, model.id, model)
    &&& issue.id matches Some(id) ==> model.id == id
}

/// `issue` is what the store's `model` says of an issue.
pub open spec fn issue_of_model(model: IssueModel, issue: Issue) -> bool {
    &&& issue.id == Some(model.id)
    &&& issue.title == model.title
    &&& issue.body == model.body
    &&& issue.status == Some(model.state)
    &&& issue.number == model.number
    &&& issue.project_id == model.project_id
    &&& issue.snapshot_id == Some(model.snapshot_id)
    &&& issue.created_at == instant_of_millis(model.created_at.millis)
    &&& issue.updated_at == instant_of_millis(model.updated_at.millis)
}

impl IssueModel {
    /// The issue as the store keeps it, under its own id or, when it has
    /// none, under `fresh_id`.
    pub fn from_domain(issue: Issue, fresh_id: ObjectId) -> (r: IssueModel)
        requires
            issue.snapshot_id is Some,
            issue.wf(),
        ensures
            issue_model_of(issue, match issue.id { Some(id) => id, None => fresh_id }, r),
    {
        let id = match issue.id {
            Some(id) => id,
            None => fresh_id,
        };
        let snapshot_id = match issue.snapshot_id {
            Some(s) => s,
            None => fresh_id,
        };
        IssueModel {
            id,
            snapshot_id,
            github_issue_id: String::new(),
            url: String::new(),
            title: issue.title,
            body: issue.body,
            number: issue.number,
            project_id: issue.project_id,
            state: take_text_or_empty(issue.status),
            state_reason: None,
            label: None,
            estimate: None,
            hours: None,
            iteration: None,
            start_date: None,
            end_date: None,
            assigned: None,
            created_at: to_bson_date_time(issue.created_at),
            updated_at: to_bson_date_time(issue.updated_at),
            closed_at: None,
        }
    }

    /// The issue that the store's model says.
    pub fn to_domain(self) -> (r: Issue)
        ensures
            issue_of_model(self, r),
            r.wf(),
    {
        Issue {
            id: Some(self.id),
            title: self.title,
            body: self.body,
            status: Some(self.state),
            number: self.number,
            project_id: self.project_id,
            snapshot_id: Some(self.snapshot_id),
            created_at: to_timestamp(self.created_at),
            updated_at: to_timestamp(self.updated_at),
        }
    }
}

/// `model` keeps `project` under the id `id`, created and updated at `now`;
/// nothing of what only GitHub tells.
pub open spec fn project_model_of(project: Project, id: ObjectId, now: BsonDateTime, model: ProjectModel) -> bool {
    &&& model.id == id
    &&& model.github_id is None
    &&& model.owner_id is None
    &&& model.title == project.name
    &&& model.number == project.number
    &&& model.url is None
    &&& model.created_at == now
    &&& model.updated_at == now
}

/// The project that the store's `model` says.
pub open spec fn project_of_model(model: ProjectModel) -> Project {
    Project { id: Some(model.id), name: model.title, number: model.number }
}

/// The snapshot that the store's `model` says.
pub open spec fn snapshot_of_model(model: SnapshotModel) -> Snapshot {
    Snapshot {
        id: Some(model.id),
        project_id: Some(model.project_id),
        created_at: instant_of_millis(model.created_at.millis),
    }
}

impl ProjectModel {
    /// The project of GitHub as the store keeps it, under the id `id`,
    /// created and updated at `now`, owned by the default owner.
    pub fn from_github(project: GithubProjectV2, id: ObjectId, now: Timestamp) -> (r: ProjectModel)
        requires
            now.wf(),
        ensures
            r.id == id,
            r.github_id == Some(project.id),
            r.owner_id matches Some(o) && o@ == default_owner(),
            r.title == project.title,
            r.number == project.number,
            r.url == Some(project.url),
            r.created_at.millis == millis_of(now),
            r.updated_at == r.created_at,
    {
        let stamp = to_bson_date_time(now);
        ProjectModel {
            id,
            github_id: Some(project.id),
            owner_id: Some(owned_text("somossoftrek")),
            title: project.title,
            number: project.number,
            url: Some(project.url),
            created_at: stamp,
            updated_at: stamp,
        }
    }

    /// The project as the store keeps it, under its own id or `fresh_id`,
    /// created and updated at `now`.
    pub fn from_domain(project: Project, fresh_id: ObjectId, now: Timestamp) -> (r: ProjectModel)
        requires
            now.wf(),
        ensures
            project_model_of(
                project,
                match project.id { Some(id) => id, None => fresh_id },
                BsonDateTime { millis: millis_of(now) as i64 },
                r,
            ),
            r.title == project.name,
            r.number == project.number,
            r.created_at.millis == millis_of(now),
            r.updated_at.millis == millis_of(now),
    {
        let stamp = to_bson_date_time(now);
        let id = match project.id {
            Some(id) => id,
            None => fresh_id,
        };
        ProjectModel {
            id,
            github_id: None,
            owner_id: None,
            title: project.name,
            number: project.number,
            url: None,
            created_at: stamp,
            updated_at: stamp,
        }
    }

    /// The project that the store's model says.
    pub fn to_domain(self) -> (r: Project)
        ensures
            r == project_of_model(self),
    {
        Project { id: Some(self.id), name: self.title, number: self.number }
    }
}

impl SnapshotModel {
    /// A snapshot of the project `project_id`, numbered `project_number`,
    /// under the id `id`, created at `now`.
    pub fn new(id: ObjectId, project_id: ObjectId, project_number: i32, now: Timestamp) -> (r: SnapshotModel)
        requires
            now.wf(),
        ensures
            r.id == id,
            r.project_id == project_id,
            r.project_number == project_number,
            r.created_at.millis == millis_of(now),
    {
        SnapshotModel { id, project_id, project_number, created_at: to_bson_date_time(now) }
    }

    /// The snapshot that the store's model says.
    pub fn to_domain(self) -> (r: Snapshot)
        ensures
            r == snapshot_of_model(self),
            r.wf(),
    {
        Snapshot {
            id: Some(self.id),
            project_id: Some(self.project_id),
            created_at: to_timestamp(self.created_at),
        }
    }

    /// The snapshot as the store keeps it, under its own id or `fresh_id`;
    /// the project number is not known to a snapshot and is kept as 0. The
    /// snapshot must belong to a project.
    pub fn from_domain(snapshot: Snapshot, fresh_id: ObjectId) -> (r: SnapshotModel)
        requires
            snapshot.project_id is Some,
            snapshot.wf(),
        ensures
            r.id == (match snapshot.id { Some(id) => id, None => fresh_id }),
            r.project_id == snapshot.project_id.unwrap(),
            r.project_number == 0,
            r.created_at.millis == millis_of(snapshot.created_at),
    {
        let id = match snapshot.id {
            Some(id) => id,
            None => fresh_id,
        };
        let project_id = match snapshot.project_id {
            Some(p) => p,
            None => fresh_id,
        };
        SnapshotModel { id, project_id, project_number: 0, created_at: to_bson_date_time(snapshot.created_at) }
    }

}

/// The values of custom fields that an issue's project items carry.
#[derive(Debug, Clone)]
pub struct ProjectFields {
    pub estimate: Option<u64>,
    pub hours: Option<u64>,
    pub iteration: Option<String>,
    pub start_date: Option<String>,
    pub end_date: Option<String>,
}

/// The field values of `items`, item after item.
pub open spec fn field_values_of(items: Seq<GithubProjectItem>) -> Seq<GithubFieldValue>
    decreases items.len(),
{
    if items.len() == 0 {
        Seq::empty()
    } else {
        field_values_of(items.drop_last()) + items.last().field_values.nodes@
    }
}

/// The field values of the project items of `issue`.
pub open spec fn issue_field_values(issue: GithubIssue) -> Seq<GithubFieldValue> {
    match issue.project_items {
        Some(items) => field_values_of(items.nodes@),
        None => Seq::empty(),
    }
}

/// `value` belongs to the field named `name`.
pub open spec fn names_field(value: GithubFieldValue, name: Seq<char>) -> bool {
    value.field matches Some(f) && f.name@ == name
}

/// The number of the last of `values` that belongs to a field named `a` or
/// `b`; `None` when there is no such value.
pub open spec fn last_number(values: Seq<GithubFieldValue>, a: Seq<char>, b: Seq<char>) -> Option<u64>
    decreases values.len(),
{
    if values.len() == 0 {
        None
    } else if names_field(values.last(), a) || names_field(values.last(), b) {
        values.last().number
    } else {
        last_number(values.drop_last(), a, b)
    }
}

/// The text of the last of `values` that belongs to the field named `a`;
/// `None` when there is no such value.
pub open spec fn last_text(values: Seq<GithubFieldValue>, a: Seq<char>) -> Option<String>
    decreases values.len(),
{
    if values.len() == 0 {
        None
    } else if names_field(values.last(), a) {
        values.last().text
    } else {
        last_text(values.drop_last(), a)
    }
}

/// What the custom fields `values` tell, a later value of a field winning
/// over an earlier one; hours come from "Hours" or "Horas".
pub open spec fn project_fields_of(values: Seq<GithubFieldValue>) -> ProjectFields {
    ProjectFields {
        estimate: last_number(values, "Estimate"@, "Estimate"@),
        hours: last_number(values, "Hours"@, "Horas"@),
        iteration: last_text(values, "Iteration"@),
        start_date: last_text(values, "Start Date"@),
        end_date: last_text(values, "End Date"@),
    }
}

proof fn lemma_field_names_differ()
    ensures
        "Estimate"@ != "Iteration"@,
        "Estimate"@ != "Start Date"@,
        "Estimate"@ != "End Date"@,
        "Estimate"@ != "Hours"@,
        "Estimate"@ != "Horas"@,
        "Iteration"@ != "Start Date"@,
        "Iteration"@ != "End Date"@,
        "Iteration"@ != "Hours"@,
        "Iteration"@ != "Horas"@,
        "Start Date"@ != "End Date"@,
        "Start Date"@ != "Hours"@,
        "Start Date"@ != "Horas"@,
        "End Date"@ != "Hours"@,
        "End Date"@ != "Horas"@,
        "Hours"@ != "Horas"@,
{
    reveal_strlit("Estimate");
    reveal_strlit("Iteration");
    reveal_strlit("Start Date");
    reveal_strlit("End Date");
    reveal_strlit("Hours");
    reveal_strlit("Horas");
    assert("Estimate"@.len() == 8 && "End Date"@.len() == 8 && "Iteration"@.len() == 9);
    assert("Start Date"@.len() == 10 && "Hours"@.len() == 5 && "Horas"@.len() == 5);
    assert("Estimate"@[1] != "End Date"@[1]);
    assert("Hours"@[2] != "Horas"@[2]);
}

fn absorb_field_value(fields: &mut ProjectFields, value: GithubFieldValue, Ghost(seen): Ghost<Seq<GithubFieldValue>>)
    requires
        *old(fields) == project_fields_of(seen),
    ensures
        *final(fields) == project_fields_of(seen.push(value)),
{
    proof {
        lemma_field_names_differ();
        assert(seen.push(value).drop_last() =~= seen);
    }
    match value.field {
        Some(field) => {
            let name = field.name.as_str();
            if text_equals(name, "Estimate") {
                fields.estimate = value.number;
            } else if text_equals(name, "Iteration") {
                fields.iteration = value.text;
            } else if text_equals(name, "Start Date") {
                fields.start_date = value.text;
            } else if text_equals(name, "End Date") {
                fields.end_date = value.text;
            } else if text_equals(name, "Hours") || text_equals(name, "Horas") {
                fields.hours = value.number;
            }
        },
        None => {},
    }
}

/// Reads the custom fields of the project items of an issue.
pub fn project_fields(items: Vec<GithubProjectItem>) -> (r: ProjectFields)
    ensures
        r == project_fields_of(field_values_of(items@)),
{
    let ghost all_items = items@;
    let mut fields = ProjectFields { estimate: None, hours: None, iteration: None, start_date: None, end_date: None };
    proof {
        assert(field_values_of(all_items.take(0)) =~= Seq::<GithubFieldValue>::empty());
    }
    for item in it: items.into_iter()
        invariant
            it.seq() == all_items,
            fields == project_fields_of(field_values_of(all_items.take(it.index() as int))),
    {
        let ghost before = field_values_of(all_items.take(it.index() as int));
        let ghost k = it.index() as int;
        let values = item.field_values.nodes;
        let ghost item_values = values@;
        for value in jt: values.into_iter()
            invariant
                jt.seq() == item_values,
                fields == project_fields_of(before + item_values.take(jt.index() as int)),
        {
            let ghost seen = before + item_values.take(jt.index() as int);
            proof {
                assert(before + item_values.take(jt.index() + 1) =~= seen.push(item_values[jt.index() as int]));
            }
            absorb_field_value(&mut fields, value, Ghost(seen));
        }
        proof {
            assert(item_values.take(item_values.len() as int) =~= item_values);
            assert(all_items.take(k + 1).drop_last() =~= all_items.take(k));
        }
    }
    proof {
        assert(all_items.take(all_items.len() as int) =~= all_items);
    }
    fields
}

/// The name of the first label of `issue`, if it has one.
pub open spec fn first_label(issue: GithubIssue) -> Option<String> {
    match issue.labels {
        Some(labels) => if labels.nodes@.len() > 0 {
            Some(labels.nodes@[0].name)
        } else {
            None
        },
        None => None,
    }
}

/// The first assignee of `issue`, if it has one.
pub open spec fn first_assignee(issue: GithubIssue) -> Option<GithubUser> {
    match issue.assignees {
        Some(assignees) => if assignees.nodes@.len() > 0 {
            Some(assignees.nodes@[0])
        } else {
            None
        },
        None => None,
    }
}

/// `model` keeps `user`.
pub open spec fn user_model_of(user: GithubUser, model: UserModel) -> bool {
    model.id == user.id && model.login == user.login && model.url == user.url
}

/// `model` keeps the GitHub issue `issue` of the snapshot `snapshot_id`
/// under the id `id`, `now` standing for an absent or unreadable creation or
/// update date-time: texts absent on GitHub are kept empty, the number
/// absent as 0, the first label and the first assignee, the custom fields,
/// the closing date-time only when GitHub gives a readable one; no body and
/// no project.
pub open spec fn issue_model_from_github(
    issue: GithubIssue,
    snapshot_id: ObjectId,
    id: ObjectId,
    now: Timestamp,
    model: IssueModel,
) -> bool {
    let fields = project_fields_of(issue_field_values(issue));
    &&& model.id == id
    &&& model.snapshot_id == snapshot_id
    &&& model.github_issue_id@ == text_or_empty(issue.id)
    &&& model.url@ == text_or_empty(issue.url)
    &&& model.title@ == text_or_empty(issue.title)
    &&& model.body is None
    &&& model.number == (match issue.number { Some(n) => n, None => 0i32 })
    &&& model.project_id is None
    &&& model.state@ == text_or_empty(issue.state)
    &&& model.state_reason == issue.state_reason
    &&& model.label == first_label(issue)
    &&& model.estimate == fields.estimate
    &&& model.hours == fields.hours
    &&& model.iteration == fields.iteration
    &&& model.start_date == fields.start_date
    &&& model.end_date == fields.end_date
    &&& (match first_assignee(issue) {
        Some(user) => model.assigned matches Some(m) && user_model_of(user, m),
        None => model.assigned is None,
    })
    &&& model.created_at.millis == millis_of(instant_or(issue.created_at, now))
    &&& model.updated_at.millis == millis_of(instant_or(issue.updated_at, now))
    &&& model.closed_at == (match written_instant(issue.closed_at) {
        Some(t) => Some(BsonDateTime { millis: millis_of(t) as i64 }),
        None => None,
    })
}

fn take_first_label(labels: Option<GithubLabels>) -> (r: Option<String>)
    ensures
        r == (match labels {
            Some(l) => if l.nodes@.len() > 0 { Some(l.nodes@[0].name) } else { None },
            None => None,
        }),
{
    match labels {
        Some(l) => {
            let mut nodes = l.nodes;
            if nodes.len() > 0 {
                Some(nodes.swap_remove(0).name)
            } else {
                None
            }
        },
        None => None,
    }
}

fn take_first_assignee(assignees: Option<GithubAssignees>) -> (r: Option<UserModel>)
    ensures
        match assignees {
            Some(a) => if a.nodes@.len() > 0 {
                r matches Some(m) && user_model_of(a.nodes@[0], m)
                    && m.id == a.nodes@[0].id && m.login == a.nodes@[0].login && m.url == a.nodes@[0].url
            } else {
                r is None
            },
            None => r is None,
        },
{
    match assignees {
        Some(a) => {
            let mut nodes = a.nodes;
            if nodes.len() > 0 {
                Some(UserModel::from_github_user(nodes.swap_remove(0)))
            } else {
                None
            }
        },
        None => None,
    }
}

fn read_closing(text: &Option<String>) -> (r: Option<BsonDateTime>)
    ensures
        r == (match written_instant(*text) {
            Some(t) => Some(BsonDateTime { millis: millis_of(t) as i64 }),
            None => None,
        }),
{
    match text {
        Some(t) => match parse_rfc3339(t.as_str()) {
            Some(instant) => Some(to_bson_date_time(instant)),
            None => None,
        },
        None => None,
    }
}

impl IssueModel {
    /// The GitHub issue as the store keeps it for the snapshot
    /// `snapshot_id`, under the id `id`; `now` stands for an absent or
    /// unreadable creation or update date-time.
    pub fn from_issue(issue: GithubIssue, snapshot_id: ObjectId, id: ObjectId, now: Timestamp) -> (r: IssueModel)
        requires
            now.wf(),
        ensures
            issue_model_from_github(issue, snapshot_id, id, now, r),
            match issue.assignees {
                Some(a) => if a.nodes@.len() > 0 {
                    r.assigned matches Some(m)
                        && m.id == a.nodes@[0].id && m.login == a.nodes@[0].login && m.url == a.nodes@[0].url
                } else {
                    r.assigned is None
                },
                None => r.assigned is None,
            },
    {
        let created_at = to_bson_date_time(read_instant_or(&issue.created_at, now));
        let updated_at = to_bson_date_time(read_instant_or(&issue.updated_at, now));
        let closed_at = read_closing(&issue.closed_at);
        let label = take_first_label(issue.labels);
        let assigned = take_first_assignee(issue.assignees);
        let items = match issue.project_items {
            Some(p) => p.nodes,
            None => Vec::new(),
        };
        proof {
            assert(field_values_of(Seq::<GithubProjectItem>::empty()) =~= Seq::<GithubFieldValue>::empty());
        }
        let fields = project_fields(items);
        let number = match issue.number {
            Some(n) => n,
            None => 0,
        };
        IssueModel {
            id,
            snapshot_id,
            github_issue_id: take_text_or_empty(issue.id),
            url: take_text_or_empty(issue.url),
            title: take_text_or_empty(issue.title),
            body: None,
            number,
            project_id: None,
            state: take_text_or_empty(issue.state),
            state_reason: issue.state_reason,
            label,
            estimate: fields.estimate,
            hours: fields.hours,
            iteration: fields.iteration,
            start_date: fields.start_date,
            end_date: fields.end_date,
            assigned,
            created_at,
            updated_at,
            closed_at,
        }
    }

}

/// The issues to save, as the store keeps them; an issue without id is
/// kept under the fresh id at its place in `fresh_ids`. Every issue must
/// belong to a snapshot.
pub fn issue_models_for_save(issues: Vec<Issue>, fresh_ids: Vec<ObjectId>) -> (r: Vec<IssueModel>)
    requires
        fresh_ids@.len() == issues@.len(),
        forall|i: int| 0 <= i < issues@.len() ==> (#[trigger] issues@[i]).snapshot_id is Some,
        forall|i: int| 0 <= i < issues@.len() ==> (#[trigger] issues@[i]).wf(),
    ensures
        r@.len() == issues@.len(),
        forall|i: int|
            0 <= i < issues@.len() ==> issue_model_of(
                #[trigger] issues@[i],
                match issues@[i].id { Some(id) => id, None => fresh_ids@[i] },
                r@[i],
            ),
{
    let ghost whole = issues@;
    let mut r: Vec<IssueModel> = Vec::new();
    for issue in it: issues.into_iter()
        invariant
            it.seq() == whole,
            r@.len() == it.index(),
            fresh_ids@.len() == whole.len(),
            forall|i: int| 0 <= i < whole.len() ==> (#[trigger] whole[i]).snapshot_id is Some,
            forall|i: int| 0 <= i < whole.len() ==> (#[trigger] whole[i]).wf(),
            forall|i: int|
                0 <= i < r@.len() ==> issue_model_of(
                    #[trigger] whole[i],
                    match whole[i].id { Some(id) => id, None => fresh_ids@[i] },
                    r@[i],
                ),
    {
        let k = r.len();
        r.push(IssueModel::from_domain(issue, fresh_ids[k]));
    }
    r
}

/// The ids of inserted documents as their hexadecimal texts.
pub fn inserted_id_texts(ids: Vec<ObjectId>) -> (r: Vec<String>)
    ensures
        r@.len() == ids@.len(),
        forall|i: int| 0 <= i < ids@.len() ==> (#[trigger] r@[i])@ == hex_text(ids@[i].bytes@),
{
    let mut r: Vec<String> = Vec::new();
    let mut i: usize = 0;
    while i < ids.len()
        invariant
            i <= ids@.len(),
            r@.len() == i,
            forall|j: int| 0 <= j < i ==> (#[trigger] r@[j])@ == hex_text(ids@[j].bytes@),
        decreases ids@.len() - i,
    {
        r.push(ids[i].to_hex());
        i += 1;
    }
    r
}

/// An issue saved and read back keeps its id (or gets the fresh one), its
/// title, body, number, project and snapshot; an absent status comes back
/// empty; its instants come back truncated to milliseconds.
pub proof fn lemma_issue_store_round_trip(issue: Issue, model: IssueModel, back: Issue)
    requires
        issue.snapshot_id is Some,
        issue.wf(),
        issue.created_at.nanos < 1_000_000_000,
        issue.updated_at.nanos < 1_000_000_000,
        issue_model_keeps(issue, model),
        issue_of_model(model, back),
    ensures
        issue.id matches Some(id) ==> back.id == Some(id),
        back.title == issue.title,
        back.body == issue.body,
        back.number == issue.number,
        back.project_id == issue.project_id,
        back.snapshot_id == issue.snapshot_id,
        back.status matches Some(s) && s@ == text_or_empty(issue.status),
        back.created_at == (Timestamp {
            secs: issue.created_at.secs,
            nanos: (issue.created_at.nanos - issue.created_at.nanos % 1_000_000) as u32,
        }),
        back.updated_at == (Timestamp {
            secs: issue.updated_at.secs,
            nanos: (issue.updated_at.nanos - issue.updated_at.nanos % 1_000_000) as u32,
        }),
{
    lemma_instant_round_trip(issue.created_at);
    lemma_instant_round_trip(issue.updated_at);
}

/// An issue read from the store and saved again is stored as it was, but
/// for what only GitHub tells (its GitHub id, url, state reason, label,
/// custom fields, assignee and closing date-time).
pub proof fn lemma_issue_model_round_trip(model: IssueModel, issue: Issue, again: IssueModel)
    requires
        MIN_UTC_MILLIS <= model.created_at.millis <= MAX_UTC_MILLIS,
        MIN_UTC_MILLIS <= model.updated_at.millis <= MAX_UTC_MILLIS,
        issue_of_model(model, issue),
        issue_model_keeps(issue, again),
    ensures
        again.id == model.id,
        again.snapshot_id == model.snapshot_id,
        again.title == model.title,
        again.body == model.body,
        again.number == model.number,
        again.project_id == model.project_id,
        again.state@ == model.state@,
        again.created_at == model.created_at,
        again.updated_at == model.updated_at,
{
    lemma_millis_round_trip(model.created_at.millis);
    lemma_millis_round_trip(model.updated_at.millis);
}

/// A project that has an id, saved and read back, is the same project.
pub proof fn lemma_project_store_round_trip(project: Project, now: BsonDateTime, model: ProjectModel)
    requires
        project.id is Some,
        project_model_of(project, project.id.unwrap(), now, model),
    ensures
        project_of_model(model) == project,
{
}

/// A snapshot of a project, saved and read back, keeps its id (or gets the
/// fresh one) and its project; its instant comes back truncated to
/// milliseconds.
pub proof fn lemma_snapshot_store_round_trip(snapshot: Snapshot, fresh_id: ObjectId, model: SnapshotModel)
    requires
        snapshot.project_id is Some,
        snapshot.wf(),
        snapshot.created_at.nanos < 1_000_000_000,
        model.id == (match snapshot.id { Some(id) => id, None => fresh_id }),
        model.project_id == snapshot.project_id.unwrap(),
        model.created_at.millis == millis_of(snapshot.created_at),
    ensures
        snapshot_of_model(model).id == Some(match snapshot.id { Some(id) => id, None => fresh_id }),
        snapshot_of_model(model).project_id == snapshot.project_id,
        snapshot_of_model(model).created_at == (Timestamp {
            secs: snapshot.created_at.secs,
            nanos: (snapshot.created_at.nanos - snapshot.created_at.nanos % 1_000_000) as u32,
        }),
{
    lemma_instant_round_trip(snapshot.created_at);
}

/// A project stored at an instant is created and updated at that instant:
/// both dates are the one given, and so equal to each other; the title and
/// number are the project's.
pub proof fn lemma_project_model_dates(project: Project, id: ObjectId, now: BsonDateTime, model: ProjectModel)
    requires
        project_model_of(project, id, now, model),
    ensures
        model.created_at == now,
        model.updated_at == now,
        model.updated_at == model.created_at,
        model.id == id,
        model.title == project.name,
        model.number == project.number,
{
}

/// The assignee stored with an issue of GitHub is its first assignee with
/// every field copied (id, login and url); an issue without assignees is
/// stored without one.
pub proof fn lemma_stored_assignee_is_first(
    issue: GithubIssue,
    snapshot_id: ObjectId,
    id: ObjectId,
    now: Timestamp,
    model: IssueModel,
)
    requires
        issue_model_from_github(issue, snapshot_id, id, now, model),
    ensures
        match issue.assignees {
            Some(a) => if a.nodes@.len() > 0 {
                model.assigned matches Some(m)
                    && m.id == a.nodes@[0].id && m.login == a.nodes@[0].login && m.url == a.nodes@[0].url
            } else {
                model.assigned is None
            },
            None => model.assigned is None,
        },
{
}

/// A user kept by the store is the GitHub user, field by field.
pub proof fn lemma_user_model_copies(user: GithubUser, model: UserModel)
    requires
        user_model_of(user, model),
    ensures
        model.id == user.id,
        model.login == user.login,
        model.url == user.url,
{
}

/// Every value of every project item is read: the values of the items with
/// one more item are those before followed by all the values of the new
/// item, whatever they hold.
pub proof fn lemma_field_values_push(items: Seq<GithubProjectItem>, item: GithubProjectItem)
    ensures
        field_values_of(items.push(item)) == field_values_of(items) + item.field_values.nodes@,
        field_values_of(items.push(item)).len() == field_values_of(items).len() + item.field_values.nodes@.len(),
{
    assert(items.push(item).drop_last() =~= items);
}

/// The values of the items of `a` and then `b` are the values of `a`
/// followed by those of `b`.
pub proof fn lemma_field_values_append(a: Seq<GithubProjectItem>, b: Seq<GithubProjectItem>)
    ensures
        field_values_of(a + b) == field_values_of(a) + field_values_of(b),
    decreases b.len(),
{
    if b.len() == 0 {
        assert(a + b =~= a);
        assert(field_values_of(a) + field_values_of(b) =~= field_values_of(a));
    } else {
        lemma_field_values_append(a, b.drop_last());
        assert((a + b).drop_last() =~= a + b.drop_last());
        assert(field_values_of(a + b) =~= field_values_of(a) + field_values_of(b));
    }
}

/// A value that belongs to no field changes none of the custom fields, and
/// the values after it are still read.
pub proof fn lemma_unnamed_value_changes_nothing(values: Seq<GithubFieldValue>, value: GithubFieldValue)
    requires
        value.field is None,
    ensures
        project_fields_of(values.push(value)) == project_fields_of(values),
{
    assert(values.push(value).drop_last() =~= values);
}

/// A later value of a custom field wins over every earlier one: the field
/// that the last value names takes that value's number or text.
pub proof fn lemma_later_value_wins(values: Seq<GithubFieldValue>, value: GithubFieldValue)
    ensures
        names_field(value, "Estimate"@) ==> project_fields_of(values.push(value)).estimate == value.number,
        names_field(value, "Hours"@) || names_field(value, "Horas"@)
            ==> project_fields_of(values.push(value)).hours == value.number,
        names_field(value, "Iteration"@) ==> project_fields_of(values.push(value)).iteration == value.text,
        names_field(value, "Start Date"@) ==> project_fields_of(values.push(value)).start_date == value.text,
        names_field(value, "End Date"@) ==> project_fields_of(values.push(value)).end_date == value.text,
{
    assert(values.push(value).drop_last() =~= values);
}

/// The label stored with an issue of GitHub is the name of its first label;
/// an issue without labels is stored without one.
pub proof fn lemma_stored_label_is_first(
    issue: GithubIssue,
    snapshot_id: ObjectId,
    id: ObjectId,
    now: Timestamp,
    model: IssueModel,
)
    requires
        issue_model_from_github(issue, snapshot_id, id, now, model),
    ensures
        match issue.labels {
            Some(l) => if l.nodes@.len() > 0 {
                model.label == Some(l.nodes@[0].name)
            } else {
                model.label is None
            },
            None => model.label is None,
        },
{
}

} // verus!
