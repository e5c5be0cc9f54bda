//! The SQL text and positional parameters that select stored projects.
use crate::filters::ProjectFilter;
use crate::state::State;
use vstd::prelude::*;

verus! {

/// A value bound to one `?` of the query.
pub enum QueryParam {
    Uuid(u128),
    Id(u32),
    Text(String),
    State(State),
}

/// The mathematical content of a [`QueryParam`].
pub enum ParamKind {
    Uuid(u128),
    Id(u32),
    Text(Seq<char>),
    State(State),
}

impl View for QueryParam {
    type V = ParamKind;

    open spec fn view(&self) -> ParamKind {
        match self {
            QueryParam::Uuid(u) => ParamKind::Uuid(*u),
            QueryParam::Id(n) => ParamKind::Id(*n),
            QueryParam::Text(s) => ParamKind::Text(s@),
            QueryParam::State(st) => ParamKind::State(*st),
        }
    }
}

/// A query over the project table and the values for its placeholders, in order.
pub struct ProjectQuery {
    pub sql: String,
    pub params: Vec<QueryParam>,
}

/// `text` where `present` holds, nothing otherwise.
pub open spec fn clause_if(present: bool, text: Seq<char>) -> Seq<char> {
    if present {
        text
    } else {
        Seq::empty()
    }
}

/// `p` where `present` holds, nothing otherwise.
pub open spec fn param_if(present: bool, p: ParamKind) -> Seq<ParamKind> {
    if present {
        seq![p]
    } else {
        Seq::empty()
    }
}

/// The SQL text for a filter: the selection of all columns, narrowed by one
/// clause per condition present (identifier, number, name, state, in that order).
pub open spec fn project_query_sql(f: ProjectFilter) -> Seq<char> {
    "SELECT uuid, id, name, state, created_at, updated_at FROM project WHERE 1=1"@ + clause_if(
        f.uuid is Some,
        " AND uuid = ?"@,
    ) + clause_if(f.id is Some, " AND id = ?"@) + clause_if(f.name is Some, " AND name LIKE ?"@)
        + clause_if(f.state is Some, " AND state = ?"@)
}

/// The values for the placeholders of [`project_query_sql`], in the same order;
/// a name is matched anywhere in the stored name, so it is wrapped in '%'.
pub open spec fn project_query_params(f: ProjectFilter) -> Seq<ParamKind> {
    param_if(f.uuid is Some, ParamKind::Uuid(*f.uuid->0)) + param_if(
        f.id is Some,
        ParamKind::Id(*f.id->0),
    ) + param_if(f.name is Some, ParamKind::Text(seq!['%'] + f.name->0@ + seq!['%'])) + param_if(
        f.state is Some,
        ParamKind::State(*f.state->0),
    )
}

/// The contents of a list of parameters.
pub open spec fn param_views(ps: Seq<QueryParam>) -> Seq<ParamKind> {
    ps.map_values(|p: QueryParam| p@)
}

/// The query that selects the projects a filter lets through.
pub fn project_query(filter: &ProjectFilter) -> (q: ProjectQuery)
    ensures
        q.sql@ == project_query_sql(*filter),
        param_views(q.params@) == project_query_params(*filter),
{
    let mut sql = String::from_str(
        "SELECT uuid, id, name, state, created_at, updated_at FROM project WHERE 1=1",
    );
    let mut params: Vec<QueryParam> = Vec::new();
    let ghost f = *filter;
    if let Some(uuid) = filter.uuid {
        sql.append(" AND uuid = ?");
        params.push(QueryParam::Uuid(*uuid));
    }
    assert(param_views(params@) =~= param_if(f.uuid is Some, ParamKind::Uuid(*f.uuid->0)));
    if let Some(id) = filter.id {
        sql.append(" AND id = ?");
        params.push(QueryParam::Id(*id));
    }
    assert(param_views(params@) =~= param_if(f.uuid is Some, ParamKind::Uuid(*f.uuid->0))
        + param_if(f.id is Some, ParamKind::Id(*f.id->0)));
    if let Some(name) = filter.name {
        sql.append(" AND name LIKE ?");
        let mut pattern = String::from_str("%");
        pattern.append(name.as_str());
        pattern.append("%");
        proof {
            reveal_strlit("%");
            assert(pattern@ =~= seq!['%'] + name@ + seq!['%']);
        }
        params.push(QueryParam::Text(pattern));
    }
    assert(param_views(params@) =~= param_if(f.uuid is Some, ParamKind::Uuid(*f.uuid->0))
        + param_if(f.id is Some, ParamKind::Id(*f.id->0)) + param_if(
        f.name is Some,
        ParamKind::Text(seq!['%'] + f.name->0@ + seq!['%']),
    ));
    if let Some(state) = filter.state {
        sql.append(" AND state = ?");
        params.push(QueryParam::State(*state));
    }
    assert(param_views(params@) =~= project_query_params(f));
    assert(sql@ =~= project_query_sql(f));
    ProjectQuery { sql, params }
}

/// The number of conditions before the name in a filter (identifier, number).
pub open spec fn params_before_name(f: ProjectFilter) -> int {
    (if f.uuid is Some { 1int } else { 0int }) + (if f.id is Some { 1int } else { 0int })
}

/// The parameters are the filter's values in order: the identifier, the
/// number, the name wrapped in one '%' on each side (so any stored name that
/// holds it matches), then the state; one per condition present.
pub proof fn lemma_query_params(f: ProjectFilter)
    ensures
        ({
            let ps = project_query_params(f);
            let k = params_before_name(f);
            &&& ps.len() == k + (if f.name is Some { 1int } else { 0int }) + (if f.state is Some {
                1int
            } else {
                0int
            })
            &&& f.uuid matches Some(u) ==> ps[0] == ParamKind::Uuid(*u)
            &&& f.id matches Some(i) ==> ps[k - 1] == ParamKind::Id(*i)
            &&& f.name matches Some(n) ==> (ps[k] matches ParamKind::Text(t) && t.len() == n@.len()
                + 2 && t[0] == '%' && t[t.len() - 1] == '%' && t.subrange(1, t.len() - 1) == n@)
            &&& f.state matches Some(st) ==> ps[ps.len() - 1] == ParamKind::State(*st)
        }),
{
    if f.name is Some {
        let n = f.name->0@;
        let t = seq!['%'] + n + seq!['%'];
        assert(t.subrange(1, t.len() - 1) =~= n);
    }
}

/// The number of times `c` occurs in `s`.
pub open spec fn occurrences(s: Seq<char>, c: char) -> nat
    decreases s.len(),
{
    if s.len() == 0 {
        0
    } else {
        occurrences(s.drop_last(), c) + if s.last() == c {
            1nat
        } else {
            0nat
        }
    }
}

proof fn lemma_occurrences_concat(a: Seq<char>, b: Seq<char>, c: char)
    ensures
        occurrences(a + b, c) == occurrences(a, c) + occurrences(b, c),
    decreases b.len(),
{
    if b.len() == 0 {
        assert(a + b =~= a);
    } else {
        lemma_occurrences_concat(a, b.drop_last(), c);
        assert((a + b).drop_last() =~= a + b.drop_last());
    }
}

proof fn lemma_no_placeholder_in_selection()
    ensures
        occurrences(
            "SELECT uuid, id, name, state, created_at, updated_at FROM project WHERE 1=1"@,
            '?',
        ) == 0,
{
    let base = "SELECT uuid, id, name, state, created_at, updated_at FROM project WHERE 1=1"@;
    reveal_strlit("SELECT uuid, id, name, state, created_at, updated_at FROM project WHERE 1=1");
    reveal_strlit("SELECT uuid, id, ");
    reveal_strlit("name, state, ");
    reveal_strlit("created_at, ");
    reveal_strlit("updated_at FROM ");
    reveal_strlit("project WHERE 1=1");
    let p1 = "SELECT uuid, id, "@;
    let p2 = "name, state, "@;
    let p3 = "created_at, "@;
    let p4 = "updated_at FROM "@;
    let p5 = "project WHERE 1=1"@;
    assert(base =~= p1 + p2 + p3 + p4 + p5);
    reveal_with_fuel(occurrences, 20);
    assert(occurrences(p1, '?') == 0);
    assert(occurrences(p2, '?') == 0);
    assert(occurrences(p3, '?') == 0);
    assert(occurrences(p4, '?') == 0);
    assert(occurrences(p5, '?') == 0);
    lemma_occurrences_concat(p1, p2, '?');
    lemma_occurrences_concat(p1 + p2, p3, '?');
    lemma_occurrences_concat(p1 + p2 + p3, p4, '?');
    lemma_occurrences_concat(p1 + p2 + p3 + p4, p5, '?');
}

proof fn lemma_one_placeholder_per_clause()
    ensures
        occurrences(" AND uuid = ?"@, '?') == 1,
        occurrences(" AND id = ?"@, '?') == 1,
        occurrences(" AND name LIKE ?"@, '?') == 1,
        occurrences(" AND state = ?"@, '?') == 1,
{
    reveal_strlit(" AND uuid = ?");
    reveal_strlit(" AND id = ?");
    reveal_strlit(" AND name LIKE ?");
    reveal_strlit(" AND state = ?");
    reveal_with_fuel(occurrences, 20);
}

/// Every placeholder of a project query has exactly one value: the text holds
/// as many '?' as there are parameters.
pub proof fn lemma_query_placeholders(f: ProjectFilter)
    ensures
        occurrences(project_query_sql(f), '?') == project_query_params(f).len(),
{
    let base = "SELECT uuid, id, name, state, created_at, updated_at FROM project WHERE 1=1"@;
    let a = clause_if(f.uuid is Some, " AND uuid = ?"@);
    let b = clause_if(f.id is Some, " AND id = ?"@);
    let c = clause_if(f.name is Some, " AND name LIKE ?"@);
    let d = clause_if(f.state is Some, " AND state = ?"@);
    lemma_no_placeholder_in_selection();
    lemma_one_placeholder_per_clause();
    assert(occurrences(Seq::<char>::empty(), '?') == 0);
    lemma_occurrences_concat(base, a, '?');
    lemma_occurrences_concat(base + a, b, '?');
    lemma_occurrences_concat(base + a + b, c, '?');
    lemma_occurrences_concat(base + a + b + c, d, '?');
}

} // verus!
