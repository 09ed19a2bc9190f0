# github_issues_migrator

Copies the issues of a GitHub project (version 2) into MongoDB. Each run finds
or creates the project, opens a snapshot for it, fetches the project's issues
page by page, stamps every issue with the snapshot's id and saves them.

## Layout

- `src/` — the verified library:
  - `sync.rs`: the synchronisation as a state machine, from the outcome of the
    last action to the next action; what it saves is every fetched issue, in
    order, stamped with the snapshot id.
  - `domain.rs`, `application.rs`: issues, projects, snapshots, page
    information and the errors of a run.
  - `github.rs`: issues as GitHub describes them, their conversion into the
    domain, query variables and the check of GitHub's answers.
  - `models.rs`: issues, projects and snapshots as MongoDB stores them, the
    conversions both ways, and the reading of a project's custom fields.
  - `decimal.rs`: writing and reading `i32` in base ten.
  - `time.rs`: instants and MongoDB dates; `ids.rs`: object ids.
- `app/` — the program around it: configuration, the HTTP client for GitHub,
  the MongoDB repositories and the loop that performs the actions.
- `tests/` — tests of the library on concrete values.
