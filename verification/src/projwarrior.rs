//! The decisions taken around each replica operation: which projects a
//! filter selects, what a query command does, and the messages reported.
//! The replica itself is driven by the caller, which performs each step and
//! hands back what it observed.
use crate::config::{FilterKind, FilterType, ProjwarriorConfig};
use crate::error::ProjChampionError;
use crate::select::selected;
use crate::table::ProjectRecord;
use crate::text::{contains, decimal, decimal_string, has_infix, str_eq};
use vstd::prelude::*;

verus! {

/// Whether a project passes a filter: by its working-set number, by its
/// identifier, or by its description containing the filter text.
pub open spec fn matches_filter(f: FilterKind, p: ProjectRecord) -> bool {
    match f {
        FilterKind::ID(id) => p.working_id == Some(id as usize),
        FilterKind::Uuid(u) => p.uuid == u,
        FilterKind::Filter(s) => has_infix(p.description@, s),
    }
}

fn passes(filter: &FilterType, p: &ProjectRecord) -> (r: bool)
    ensures
        r == matches_filter(filter@, *p),
{
    match filter {
        FilterType::ID(id) => match p.working_id {
            Some(w) => w == *id as usize,
            None => false,
        },
        FilterType::Uuid(u) => p.uuid == *u,
        FilterType::Filter(s) => contains(p.description.as_str(), s.as_str()),
    }
}

/// The positions of the projects that pass the filter, in order.
pub fn filter_projects(filter: &FilterType, projects: &[ProjectRecord]) -> (r: Vec<usize>)
    ensures
        r@ == selected(projects@.len() as int, |i: int| matches_filter(filter@, projects@[i])),
{
    let ghost p = |i: int| matches_filter(filter@, projects@[i]);
    let mut r: Vec<usize> = Vec::new();
    let mut i: usize = 0;
    while i < projects.len()
        invariant
            i <= projects@.len(),
            r@ == selected(i as int, p),
            p == (|i: int| matches_filter(filter@, projects@[i])),
        decreases projects.len() - i,
    {
        proof {
            crate::select::lemma_selected_step(i as int, p);
        }
        if passes(filter, &projects[i]) {
            r.push(i);
        }
        i = i + 1;
    }
    r
}

/// A text filter selects a project exactly when the text occurs somewhere
/// in its description: at the start, in the middle or at the end.
pub proof fn lemma_text_filter_selects(p: ProjectRecord, s: Seq<char>)
    ensures
        matches_filter(FilterKind::Filter(s), p) <==> exists|i: int|
            0 <= i && i + s.len() <= p.description@.len() && #[trigger] p.description@.subrange(
                i,
                i + s.len(),
            ) == s,
        p.description@.len() >= s.len() && p.description@.subrange(0, s.len() as int) == s
            ==> matches_filter(FilterKind::Filter(s), p),
        p.description@.len() >= s.len() && p.description@.subrange(
            p.description@.len() - s.len(),
            p.description@.len() as int,
        ) == s ==> matches_filter(FilterKind::Filter(s), p),
{
    let d = p.description@;
    if d.len() >= s.len() && d.subrange(0, s.len() as int) == s {
        assert(d.subrange(0int, 0int + s.len()) == s);
    }
    if d.len() >= s.len() && d.subrange(d.len() - s.len(), d.len() as int) == s {
        let i = d.len() - s.len();
        assert(d.subrange(i, i + s.len()) == s);
    }
}

/// A number filter selects exactly the projects with that working-set number,
/// and an identifier filter exactly the project with that identifier.
pub proof fn lemma_number_and_identifier_filters(p: ProjectRecord, n: u32, u: u128)
    ensures
        matches_filter(FilterKind::ID(n), p) <==> p.working_id == Some(n as usize),
        matches_filter(FilterKind::Uuid(u), p) <==> p.uuid == u,
{
}

/// A query written as a project's working-set number in decimal finds that
/// project, and finds only projects with that number.
pub proof fn lemma_number_query_finds_project(projects: Seq<ProjectRecord>, k: int, n: u32)
    requires
        0 <= k < projects.len(),
        projects.len() <= usize::MAX,
        projects[k].working_id == Some(n as usize),
    ensures
        ({
            let found = selected(
                projects.len() as int,
                |i: int| matches_filter(crate::config::filter_from_text(decimal(n as nat)), projects[i]),
            );
            &&& found.contains(k as usize)
            &&& forall|j: int|
                0 <= j < found.len() ==> projects[#[trigger] found[j] as int].working_id == Some(
                    n as usize,
                )
        }),
{
    crate::config::lemma_filter_decimal(n);
    let p = |i: int| matches_filter(crate::config::filter_from_text(decimal(n as nat)), projects[i]);
    crate::select::lemma_selected(projects.len() as int, p);
    assert(p(k));
    let found = selected(projects.len() as int, p);
    assert forall|j: int| 0 <= j < found.len() implies projects[#[trigger] found[j] as int].working_id
        == Some(n as usize) by {
        assert(p(found[j] as int));
    }
}

/// A query written as a hyphenated identifier that the identifier parser reads
/// as `u` finds exactly the projects with identifier `u`.
pub proof fn lemma_identifier_query_finds_project(projects: Seq<ProjectRecord>, t: Seq<char>, u: u128)
    requires
        projects.len() <= usize::MAX,
        t.len() > 8,
        t[8] == '-',
        crate::ident::uuid_from_text(t) == Some(u),
    ensures
        ({
            let found = selected(
                projects.len() as int,
                |i: int| matches_filter(crate::config::filter_from_text(t), projects[i]),
            );
            &&& forall|k: int| 0 <= k < projects.len() && projects[k].uuid == u ==> found.contains(
                k as usize,
            )
            &&& forall|j: int|
                0 <= j < found.len() ==> projects[#[trigger] found[j] as int].uuid == u
        }),
{
    crate::config::lemma_filter_hyphenated_uuid(t, u);
    let p = |i: int| matches_filter(crate::config::filter_from_text(t), projects[i]);
    crate::select::lemma_selected(projects.len() as int, p);
    let found = selected(projects.len() as int, p);
    assert forall|k: int| 0 <= k < projects.len() && projects[k].uuid == u implies found.contains(
        k as usize,
    ) by {
        assert(p(k));
    }
    assert forall|j: int| 0 <= j < found.len() implies projects[#[trigger] found[j] as int].uuid
        == u by {
        assert(p(found[j] as int));
    }
}

/// The filter a listing uses: none without a subcommand, else the filter the subcommand reads as.
pub fn listing_filter(subcommand: &Option<String>) -> (r: Result<Option<FilterType>, ProjChampionError>)
    ensures
        match subcommand {
            None => r matches Ok(None),
            Some(s) => r matches Ok(Some(f)) && f@ == crate::config::filter_from_text(s@),
        },
{
    match subcommand {
        None => Ok(None),
        Some(s) => match FilterType::from_str(s.as_str()) {
            Ok(f) => Ok(Some(f)),
            Err(_) => Err(ProjChampionError::SubCommand(s.clone())),
        },
    }
}

/// The report after importing projects.
pub fn init_message(count: usize) -> (r: String)
    ensures
        r@ == "Successfully initialized "@ + decimal(count as nat) + " projects"@,
{
    String::from_str("Successfully initialized ").concat(decimal_string(count as u64).as_str()).concat(
        " projects",
    )
}

/// The outcome of undoing the last operations: the report when the replica
/// reverted the `num_ops` operations, an error when it refused.
pub fn undo_outcome(num_ops: usize, reverted: bool) -> (r: Result<String, ProjChampionError>)
    ensures
        reverted ==> (r matches Ok(s) && s@ == "Reverted last "@ + decimal(num_ops as nat)
            + " operation"@),
        !reverted ==> r == Err::<String, ProjChampionError>(ProjChampionError::InvalidUndo),
{
    if reverted {
        Ok(
            String::from_str("Reverted last ").concat(decimal_string(num_ops as u64).as_str()).concat(
                " operation",
            ),
        )
    } else {
        Err(ProjChampionError::InvalidUndo)
    }
}

/// What a sync server needs: its address, the client's identifier and the encryption secret.
pub struct SyncSettings {
    pub url: String,
    pub client_id: u128,
    pub encryption_secret: Vec<u8>,
}

/// The sync settings of a configuration, or the first one missing
/// (address, then client identifier, then secret).
pub fn sync_settings(conf: &ProjwarriorConfig) -> (r: Result<SyncSettings, ProjChampionError>)
    ensures
        match (conf.sync_url, conf.sync_client_id, conf.sync_secret) {
            (Some(url), Some(id), Some(secret)) => r matches Ok(st) && st.url@ == url@
                && st.client_id == id && st.encryption_secret@ == vstd::utf8::encode_utf8(secret@),
            (None, _, _) => r matches Err(ProjChampionError::Sync(m)) && m@
                == "Invalid sync server URL."@,
            (Some(_), None, _) => r matches Err(ProjChampionError::Sync(m)) && m@
                == "Invalid sync server client_id."@,
            (Some(_), Some(_), None) => r matches Err(ProjChampionError::Sync(m)) && m@
                == "Invalid sync server secret."@,
        },
{
    let url = match &conf.sync_url {
        Some(url) => url.clone(),
        None => {
            return Err(ProjChampionError::Sync(String::from_str("Invalid sync server URL.")));
        },
    };
    let client_id = match conf.sync_client_id {
        Some(client_id) => client_id,
        None => {
            return Err(
                ProjChampionError::Sync(String::from_str("Invalid sync server client_id.")),
            );
        },
    };
    let encryption_secret = match &conf.sync_secret {
        Some(secret) => secret.as_str().as_bytes_vec(),
        None => {
            return Err(ProjChampionError::Sync(String::from_str("Invalid sync server secret.")));
        },
    };
    Ok(SyncSettings { url, client_id, encryption_secret })
}

/// The report after a sync that sent `changes` local operations.
pub fn sync_message(changes: usize) -> (r: String)
    ensures
        r@ == "Synced "@ + decimal(changes as nat) + " to server."@,
{
    String::from_str("Synced ").concat(decimal_string(changes as u64).as_str()).concat(
        " to server.",
    )
}

/// The report of a count of projects: the number alone.
pub fn count_message(count: usize) -> (r: String)
    ensures
        r@ == decimal(count as nat),
{
    decimal_string(count as u64)
}

/// The name of the project to add: the subcommand, which must be given.
pub fn project_to_add(subcommand: &Option<String>) -> (r: Result<&String, ProjChampionError>)
    ensures
        match subcommand {
            Some(name) => r == Ok::<&String, ProjChampionError>(name),
            None => r == Err::<&String, ProjChampionError>(ProjChampionError::NoProj),
        },
{
    match subcommand {
        Some(name) => Ok(name),
        None => Err(ProjChampionError::NoProj),
    }
}

/// The report after adding the project `name`.
pub fn added_message(name: &str) -> (r: String)
    ensures
        r@ == "Successfully added project "@ + name@,
{
    String::from_str("Successfully added project ").concat(name)
}

/// The report when a query matches no project.
pub fn no_match_message() -> (r: String)
    ensures
        r@ == "No projects match given filter."@,
{
    String::from_str("No projects match given filter.")
}

/// The notice about local changes not yet synced.
pub fn unsynced_notice(changes: usize) -> (r: String)
    ensures
        r@ == if changes == 0 {
            "Up to date."@
        } else {
            "You have "@ + decimal(changes as nat) + " unsynced changes locally."@
        },
{
    if changes == 0 {
        String::from_str("Up to date.")
    } else {
        String::from_str("You have ").concat(decimal_string(changes as u64).as_str()).concat(
            " unsynced changes locally.",
        )
    }
}

/// What a query command does with the projects its filter matched.
#[derive(Debug, Clone, Copy, PartialEq, Eq, Structural)]
pub enum QueryAction {
    /// Nothing matched: say so.
    NoMatch,
    /// Show the details of the single match.
    Show,
    /// Mark the single match done.
    Done,
    /// Mark the single match deleted.
    Delete,
    /// Several matched: list them.
    List,
}

/// The action of a query with `matches` matching projects and the given subcommand.
/// A subcommand applies to a single match only; with one match and no
/// subcommand the project is shown; an unknown subcommand is refused.
pub fn query_action(matches: usize, subcommand: &Option<String>) -> (r: Result<QueryAction, ProjChampionError>)
    ensures
        matches == 0 ==> r == Ok::<QueryAction, ProjChampionError>(QueryAction::NoMatch),
        matches >= 2 ==> r == Ok::<QueryAction, ProjChampionError>(QueryAction::List),
        matches == 1 ==> match subcommand {
            None => r == Ok::<QueryAction, ProjChampionError>(QueryAction::Show),
            Some(s) => if s@ == "show"@ {
                r == Ok::<QueryAction, ProjChampionError>(QueryAction::Show)
            } else if s@ == "done"@ {
                r == Ok::<QueryAction, ProjChampionError>(QueryAction::Done)
            } else if s@ == "delete"@ {
                r == Ok::<QueryAction, ProjChampionError>(QueryAction::Delete)
            } else {
                r matches Err(ProjChampionError::SubCommand(e)) && e@ == s@
            },
        },
{
    if matches == 0 {
        Ok(QueryAction::NoMatch)
    } else if matches >= 2 {
        Ok(QueryAction::List)
    } else {
        match subcommand {
            None => Ok(QueryAction::Show),
            Some(s) => {
                let t = s.as_str();
                if str_eq(t, "show") {
                    Ok(QueryAction::Show)
                } else if str_eq(t, "done") {
                    Ok(QueryAction::Done)
                } else if str_eq(t, "delete") {
                    Ok(QueryAction::Delete)
                } else {
                    Err(ProjChampionError::SubCommand(s.clone()))
                }
            },
        }
    }
}

} // verus!
