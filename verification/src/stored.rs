//! Stored projects: a row of the project table read back into a project,
//! and a project written out as a row.
use crate::select::selected;
use crate::state::{state_named, State};
use crate::tasks::{count_project_tasks, in_project, TaskSummary};
use vstd::prelude::*;

verus! {

/// The number that a sequence of bytes writes in big-endian order.
pub open spec fn be_value(s: Seq<u8>) -> nat
    decreases s.len(),
{
    if s.len() == 0 {
        0
    } else {
        be_value(s.drop_last()) * 256 + s.last() as nat
    }
}

/// What `chrono::DateTime::parse_from_rfc3339` makes of a text: the instant as
/// whole seconds since the Unix epoch and nanoseconds within the second, or
/// nothing when it rejects the text.
pub uninterp spec fn rfc3339_instant(s: Seq<char>) -> Option<(i64, u32)>;

/// What `chrono`'s `to_rfc3339` writes for the UTC instant (seconds since the
/// epoch, nanoseconds); nothing where `DateTime::from_timestamp` has no such instant.
pub uninterp spec fn rfc3339_text(secs: i64, nanos: u32) -> Option<Seq<char>>;

/// Calls `chrono::DateTime::parse_from_rfc3339` and keeps the instant's
/// `timestamp()` and `timestamp_subsec_nanos()`. Claimed: the result is `rfc3339_instant` of the text.
#[verifier::external_body]
pub(crate) fn parse_rfc3339(s: &str) -> (r: Option<(i64, u32)>)
    ensures
        r == rfc3339_instant(s@),
{
    match chrono::DateTime::parse_from_rfc3339(s) {
        Ok(d) => Some((d.timestamp(), d.timestamp_subsec_nanos())),
        Err(_) => None,
    }
}

/// Calls `chrono::DateTime::<Utc>::from_timestamp(secs, nanos)` and writes the
/// instant with `to_rfc3339`. Claimed: the result is `rfc3339_text(secs, nanos)`.
#[verifier::external_body]
pub(crate) fn format_rfc3339(secs: i64, nanos: u32) -> (r: Option<String>)
    ensures
        match r {
            Some(s) => rfc3339_text(secs, nanos) == Some(s@),
            None => rfc3339_text(secs, nanos) is None,
        },
{
    match chrono::DateTime::<chrono::Utc>::from_timestamp(secs, nanos) {
        Some(d) => Some(d.to_rfc3339()),
        None => None,
    }
}

/// Calls `uuid::Uuid::from_slice` and keeps the identifier's `as_u128`.
/// Claimed, as the source shows: a slice of 16 bytes is taken as the
/// identifier's big-endian bytes, and any other length is refused.
#[verifier::external_body]
pub(crate) fn uuid_from_blob(b: &[u8]) -> (r: Option<u128>)
    ensures
        r == if b@.len() == 16 {
            Some(be_value(b@) as u128)
        } else {
            None::<u128>
        },
{
    match uuid::Uuid::from_slice(b) {
        Ok(u) => Some(u.as_u128()),
        Err(_) => None,
    }
}

/// Calls `uuid::Uuid::from_u128` and copies `as_bytes`. Claimed, as the source
/// shows: the 16 big-endian bytes of the value.
#[verifier::external_body]
pub(crate) fn uuid_to_blob(u: u128) -> (r: Vec<u8>)
    ensures
        r@.len() == 16,
        be_value(r@) == u,
{
    uuid::Uuid::from_u128(u).as_bytes().to_vec()
}

/// A stored project: its name, state, working number, identifier and the
/// instants (seconds since the epoch, nanoseconds) of its creation and last change.
#[derive(Debug)]
pub struct Project {
    pub name: String,
    pub state: State,
    pub id: Option<u32>,
    pub uuid: u128,
    pub created_at: (i64, u32),
    pub updated_at: (i64, u32),
}

impl Default for Project {
    /// A pending project with no name, number or identifier, made at the epoch.
    fn default() -> (p: Project)
        ensures
            p.name@ == Seq::<char>::empty(),
            p.state == State::Pending,
            p.id is None,
            p.uuid == 0,
            p.created_at == (0i64, 0u32),
            p.updated_at == (0i64, 0u32),
    {
        Project {
            name: String::new(),
            state: State::Pending,
            id: None,
            uuid: 0,
            created_at: (0, 0),
            updated_at: (0, 0),
        }
    }
}

impl Project {
    /// How many of `tasks` belong to this project, as an `i32`.
    pub fn get_tasks(&self, tasks: &[TaskSummary]) -> (r: i32)
        ensures
            r == selected(tasks@.len() as int, |i: int| in_project(tasks@[i], self.name@)).len()
                as i32,
    {
        count_project_tasks(self.name.as_str(), tasks)
    }
}

/// What is wrong with a stored row, in the order the row is read.
#[derive(Debug, Clone, Copy, PartialEq, Eq, Structural)]
pub enum RowError {
    /// The creation time is not an RFC 3339 text.
    CreatedAt,
    /// The time of the last change is not an RFC 3339 text.
    UpdatedAt,
    /// The identifier is not 16 bytes.
    Uuid,
    /// The state is none of the state names.
    State,
}

/// The project a stored row holds, or the first part of it that cannot be
/// read: creation time, time of change, identifier, state.
pub fn project_from_row(
    uuid_blob: &[u8],
    id: Option<u32>,
    name: String,
    state_text: &str,
    created: &str,
    updated: &str,
) -> (r: Result<Project, RowError>)
    ensures
        rfc3339_instant(created@) is None ==> r == Err::<Project, RowError>(RowError::CreatedAt),
        rfc3339_instant(created@) is Some && rfc3339_instant(updated@) is None ==> r == Err::<
            Project,
            RowError,
        >(RowError::UpdatedAt),
        rfc3339_instant(created@) is Some && rfc3339_instant(updated@) is Some && uuid_blob@.len()
            != 16 ==> r == Err::<Project, RowError>(RowError::Uuid),
        rfc3339_instant(created@) is Some && rfc3339_instant(updated@) is Some && uuid_blob@.len()
            == 16 && state_named(state_text@) is None ==> r == Err::<Project, RowError>(
            RowError::State,
        ),
        rfc3339_instant(created@) is Some && rfc3339_instant(updated@) is Some && uuid_blob@.len()
            == 16 && state_named(state_text@) is Some ==> r is Ok,
        r matches Ok(p) ==> {
            &&& Some(p.created_at) == rfc3339_instant(created@)
            &&& Some(p.updated_at) == rfc3339_instant(updated@)
            &&& uuid_blob@.len() == 16
            &&& p.uuid == be_value(uuid_blob@) as u128
            &&& Some(p.state) == state_named(state_text@)
            &&& p.id == id
            &&& p.name == name
        },
{
    let created_at = match parse_rfc3339(created) {
        Some(t) => t,
        None => {
            return Err(RowError::CreatedAt);
        },
    };
    let updated_at = match parse_rfc3339(updated) {
        Some(t) => t,
        None => {
            return Err(RowError::UpdatedAt);
        },
    };
    let uuid = match uuid_from_blob(uuid_blob) {
        Some(u) => u,
        None => {
            return Err(RowError::Uuid);
        },
    };
    let state = match State::from_text(state_text) {
        Some(s) => s,
        None => {
            return Err(RowError::State);
        },
    };
    Ok(Project { name, state, id, uuid, created_at, updated_at })
}

/// The values a project is stored with: identifier bytes, name, state text,
/// creation time and time of change as RFC 3339 texts.
pub struct ProjectRow {
    pub uuid_blob: Vec<u8>,
    pub name: String,
    pub state: String,
    pub created_at: String,
    pub updated_at: String,
}

/// The row a project is stored as; nothing when one of its instants has no
/// RFC 3339 text (it lies outside the calendar's range).
pub fn project_row(p: &Project) -> (r: Option<ProjectRow>)
    ensures
        r is Some <==> (rfc3339_text(p.created_at.0, p.created_at.1) is Some && rfc3339_text(
            p.updated_at.0,
            p.updated_at.1,
        ) is Some),
        r matches Some(row) ==> {
            &&& row.uuid_blob@.len() == 16
            &&& be_value(row.uuid_blob@) == p.uuid
            &&& row.name@ == p.name@
            &&& row.state@ == p.state.text()
            &&& rfc3339_text(p.created_at.0, p.created_at.1) == Some(row.created_at@)
            &&& rfc3339_text(p.updated_at.0, p.updated_at.1) == Some(row.updated_at@)
        },
{
    let created_at = match format_rfc3339(p.created_at.0, p.created_at.1) {
        Some(t) => t,
        None => {
            return None;
        },
    };
    let updated_at = match format_rfc3339(p.updated_at.0, p.updated_at.1) {
        Some(t) => t,
        None => {
            return None;
        },
    };
    Some(
        ProjectRow {
            uuid_blob: uuid_to_blob(p.uuid),
            name: p.name.clone(),
            state: p.state.to_string(),
            created_at,
            updated_at,
        },
    )
}

} // verus!
