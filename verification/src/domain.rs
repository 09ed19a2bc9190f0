use vstd::prelude::*;
use crate::ids::ObjectId;
use crate::time::Timestamp;

verus! {

/// An issue of a project, as the synchronisation handles it.
#[derive(Debug, Clone)]
pub struct Issue {
    pub id: Option<ObjectId>,
    pub title: String,
    pub body: Option<String>,
    pub status: Option<String>,
    pub number: i32,
    pub project_id: Option<ObjectId>,
    pub snapshot_id: Option<ObjectId>,
    pub created_at: Timestamp,
    pub updated_at: Timestamp,
}

/// A project whose issues are synchronised.
#[derive(Debug, Clone)]
pub struct Project {
    pub id: Option<ObjectId>,
    pub name: String,
    pub number: i32,
}

/// One synchronisation of a project: the issues saved by it carry its id.
#[derive(Debug, Clone)]
pub struct Snapshot {
    pub id: Option<ObjectId>,
    pub project_id: Option<ObjectId>,
    pub created_at: Timestamp,
}

/// An error of the domain rules.
#[derive(Debug, Clone)]
pub enum DomainError {
    ValidationError(String),
}

/// Where a page of issues ends, and whether another follows.
#[derive(Debug, Clone)]
pub struct PageInfo {
    pub has_next_page: bool,
    pub end_cursor: Option<String>,
}

impl Issue {
    /// Both instants of the issue lie in the range of UTC date-times.
    pub open spec fn wf(self) -> bool {
        self.created_at.wf() && self.updated_at.wf()
    }
}

impl Snapshot {
    /// The instant of the snapshot lies in the range of UTC date-times.
    pub open spec fn wf(self) -> bool {
        self.created_at.wf()
    }
}

} // verus!
