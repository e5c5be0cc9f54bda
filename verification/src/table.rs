//! What the project tables show: columns, cell texts, colours and rows.
use crate::ident::{format_utc_date, format_utc_datetime, utc_date_text, utc_datetime_text, uuid_text, uuid_to_string};
use crate::tasks::{count_project_tasks, in_project, TaskSummary};
use crate::text::{
    debug_quoted, decimal, decimal_string, join, join_seq, signed_decimal, signed_decimal_string,
    str_debug_text, views,
};
use crate::select::selected;
use vstd::prelude::*;

verus! {

/// The status of a project in the replica.
#[derive(Debug, PartialEq, Eq)]
pub enum ProjectStatus {
    Pending,
    Completed,
    Deleted,
    Recurring,
    /// A status the replica did not recognise, with its stored text.
    Unknown(String),
}

impl Clone for ProjectStatus {
    fn clone(&self) -> (r: ProjectStatus)
        ensures
            r == *self,
    {
        match self {
            ProjectStatus::Pending => ProjectStatus::Pending,
            ProjectStatus::Completed => ProjectStatus::Completed,
            ProjectStatus::Deleted => ProjectStatus::Deleted,
            ProjectStatus::Recurring => ProjectStatus::Recurring,
            ProjectStatus::Unknown(s) => ProjectStatus::Unknown(s.clone()),
        }
    }
}

impl ProjectStatus {
    /// The shown name of a status: the variant's name.
    pub open spec fn display_text(self) -> Seq<char> {
        match self {
            ProjectStatus::Pending => "Pending"@,
            ProjectStatus::Completed => "Completed"@,
            ProjectStatus::Deleted => "Deleted"@,
            ProjectStatus::Recurring => "Recurring"@,
            ProjectStatus::Unknown(_) => "Unknown"@,
        }
    }

    /// The shown name of a status.
    pub fn to_string(&self) -> (r: String)
        ensures
            r@ == self.display_text(),
    {
        match self {
            ProjectStatus::Pending => String::from_str("Pending"),
            ProjectStatus::Completed => String::from_str("Completed"),
            ProjectStatus::Deleted => String::from_str("Deleted"),
            ProjectStatus::Recurring => String::from_str("Recurring"),
            ProjectStatus::Unknown(_) => String::from_str("Unknown"),
        }
    }
}

/// What the project logic reads of a project in the replica: its identifier,
/// description (the project's name), status, entry time in seconds since the
/// Unix epoch, and its number in the working set.
pub struct ProjectRecord {
    pub uuid: u128,
    pub description: String,
    pub status: ProjectStatus,
    pub entry: Option<i64>,
    pub working_id: Option<usize>,
}

impl Clone for ProjectRecord {
    fn clone(&self) -> (r: ProjectRecord)
        ensures
            r == *self,
    {
        ProjectRecord {
            uuid: self.uuid,
            description: self.description.clone(),
            status: self.status.clone(),
            entry: self.entry,
            working_id: self.working_id,
        }
    }
}

/// One line of the project list.
#[derive(Debug)]
pub struct ProjectTableItem {
    pub name: String,
    pub id: Option<usize>,
    pub uuid: u128,
    pub status: ProjectStatus,
    pub tasks: i32,
    pub entry: Option<i64>,
}

impl ProjectTableItem {
    /// The list line of a project: its number, identifier, status, entry time,
    /// its description as name, and how many of `tasks` belong to it.
    pub fn from_project(project: &ProjectRecord, tasks: &[TaskSummary]) -> (item: ProjectTableItem)
        ensures
            item.name@ == project.description@,
            item.id == project.working_id,
            item.uuid == project.uuid,
            item.status == project.status,
            item.entry == project.entry,
            item.tasks == selected(
                tasks@.len() as int,
                |i: int| in_project(tasks@[i], project.description@),
            ).len() as i32,
    {
        let name = project.description.clone();
        let count = count_project_tasks(name.as_str(), tasks);
        ProjectTableItem {
            tasks: count,
            id: project.working_id,
            status: project.status.clone(),
            entry: project.entry,
            name,
            uuid: project.uuid,
        }
    }
}

/// The text of an optional number: its decimal form, or "-" when absent.
pub open spec fn optional_number_text(n: Option<u64>) -> Seq<char> {
    match n {
        Some(v) => decimal(v as nat),
        None => "-"@,
    }
}

/// The text of an optional number: its decimal form, or "-" when absent.
pub fn optional_number_string(n: Option<u64>) -> (r: String)
    ensures
        r@ == optional_number_text(n),
{
    match n {
        Some(v) => decimal_string(v),
        None => String::from_str("-"),
    }
}

/// The text of an optional entry time: its UTC date "%Y-%m-%d", or "-".
pub open spec fn entry_text(entry: Option<i64>) -> Seq<char> {
    match entry {
        Some(secs) => match utc_date_text(secs) {
            Some(t) => t,
            None => "-"@,
        },
        None => "-"@,
    }
}

/// A column of the project list.
#[derive(Debug, Clone, Copy, PartialEq, Eq, Structural)]
pub enum Column {
    Id,
    Uuid,
    Name,
    Status,
    Tasks,
    Entry,
}

impl Column {
    /// The heading of the column.
    pub open spec fn header_text(self) -> Seq<char> {
        match self {
            Column::Id => "ID"@,
            Column::Uuid => "UUID"@,
            Column::Name => "Description"@,
            Column::Status => "Status"@,
            Column::Tasks => "Tasks"@,
            Column::Entry => "Entry"@,
        }
    }

    /// The text the column shows for an item.
    pub open spec fn cell_text(self, item: ProjectTableItem) -> Seq<char> {
        match self {
            Column::Id => optional_number_text(
                match item.id {
                    Some(i) => Some(i as u64),
                    None => None,
                },
            ),
            Column::Uuid => uuid_text(item.uuid),
            Column::Name => item.name@,
            Column::Status => item.status.display_text(),
            Column::Tasks => signed_decimal(item.tasks as int),
            Column::Entry => entry_text(item.entry),
        }
    }

    /// The heading of the column.
    pub fn header(&self) -> (r: &'static str)
        ensures
            r@ == self.header_text(),
    {
        match self {
            Column::Id => "ID",
            Column::Uuid => "UUID",
            Column::Name => "Description",
            Column::Status => "Status",
            Column::Tasks => "Tasks",
            Column::Entry => "Entry",
        }
    }

    /// The text the column shows for an item.
    pub fn row(&self, item: &ProjectTableItem) -> (r: String)
        ensures
            r@ == self.cell_text(*item),
    {
        match self {
            Column::Id => optional_number_string(
                match item.id {
                    Some(i) => Some(i as u64),
                    None => None,
                },
            ),
            Column::Uuid => uuid_to_string(item.uuid),
            Column::Name => item.name.clone(),
            Column::Status => item.status.to_string(),
            Column::Tasks => signed_decimal_string(item.tasks as i64),
            Column::Entry => match item.entry {
                Some(secs) => match format_utc_date(secs) {
                    Some(t) => t,
                    None => String::from_str("-"),
                },
                None => String::from_str("-"),
            },
        }
    }
}

/// The colours a table cell can take.
#[derive(Debug, Clone, Copy, PartialEq, Eq, Structural)]
pub enum TableColor {
    Reset,
    Black,
    Yellow,
    Green,
}

/// The colour of a project by its number of tasks: yellow with none, green otherwise.
pub fn determine_proj_color(task_count: usize) -> (c: TableColor)
    ensures
        c == if task_count == 0 {
            TableColor::Yellow
        } else {
            TableColor::Green
        },
{
    if task_count == 0 {
        TableColor::Yellow
    } else {
        TableColor::Green
    }
}

/// The text colour of a project's cells: by its tasks where colour is on, plain otherwise.
pub open spec fn project_color_spec(color: bool, task_count: usize) -> TableColor {
    if !color {
        TableColor::Reset
    } else if task_count == 0 {
        TableColor::Yellow
    } else {
        TableColor::Green
    }
}

/// With colour on, a project with tasks is green and one without is yellow;
/// with colour off its cells are plain. Rows alternate black and plain
/// backgrounds from the first, where colour is on.
pub proof fn lemma_colors(color: bool, task_count: usize, index: int)
    requires
        index >= 0,
    ensures
        color && task_count > 0 ==> project_color_spec(color, task_count) == TableColor::Green,
        color && task_count == 0 ==> project_color_spec(color, task_count) == TableColor::Yellow,
        !color ==> project_color_spec(color, task_count) == TableColor::Reset,
        color ==> stripe_color_spec(color, 2 * index) == TableColor::Black,
        color ==> stripe_color_spec(color, 2 * index + 1) == TableColor::Reset,
        !color ==> stripe_color_spec(color, index) == TableColor::Reset,
{
}

/// The text colour of a project's cells: by its tasks where colour is on, plain otherwise.
pub fn project_color(color: bool, task_count: usize) -> (c: TableColor)
    ensures
        c == project_color_spec(color, task_count),
{
    if color {
        determine_proj_color(task_count)
    } else {
        TableColor::Reset
    }
}

/// The background of the row at `index`: black on every other row (from the
/// first) where colour is on, plain otherwise.
pub open spec fn stripe_color_spec(color: bool, index: int) -> TableColor {
    if color && index % 2 == 0 {
        TableColor::Black
    } else {
        TableColor::Reset
    }
}

/// The background of the row at `index`.
pub fn stripe_color(color: bool, index: usize) -> (c: TableColor)
    ensures
        c == stripe_color_spec(color, index as int),
{
    if color && index % 2 == 0 {
        TableColor::Black
    } else {
        TableColor::Reset
    }
}

/// One row of a table: its cell texts and colours.
pub struct TableRow {
    pub cells: Vec<String>,
    pub fg: TableColor,
    pub bg: TableColor,
}

/// The headings of the chosen columns, in order.
pub fn column_headers(columns: &[Column]) -> (r: Vec<&'static str>)
    ensures
        r@.len() == columns@.len(),
        forall|k: int| 0 <= k < columns@.len() ==> (#[trigger] r@[k])@ == columns@[k].header_text(),
{
    let mut r: Vec<&'static str> = Vec::new();
    let mut k: usize = 0;
    while k < columns.len()
        invariant
            k <= columns@.len(),
            r@.len() == k,
            forall|j: int| 0 <= j < k ==> (#[trigger] r@[j])@ == columns@[j].header_text(),
        decreases columns.len() - k,
    {
        r.push(columns[k].header());
        k = k + 1;
    }
    r
}

/// The cells of an item in the chosen columns, in order.
pub fn item_cells(item: &ProjectTableItem, columns: &[Column]) -> (r: Vec<String>)
    ensures
        views(r@) == columns@.map_values(|c: Column| c.cell_text(*item)),
{
    let mut r: Vec<String> = Vec::new();
    let mut k: usize = 0;
    while k < columns.len()
        invariant
            k <= columns@.len(),
            views(r@) == columns@.take(k as int).map_values(|c: Column| c.cell_text(*item)),
        decreases columns.len() - k,
    {
        let ghost before = r@;
        let cell = columns[k].row(item);
        r.push(cell);
        assert(views(r@) =~= views(before).push(cell@));
        assert(columns@.take(k + 1) =~= columns@.take(k as int).push(columns@[k as int]));
        assert(views(r@) =~= columns@.take(k + 1).map_values(|c: Column| c.cell_text(*item)));
        k = k + 1;
    }
    assert(columns@.take(columns@.len() as int) =~= columns@);
    r
}

/// The items the project list shows: every item, or with the short listing
/// only the projects without tasks, in order.
pub open spec fn listed_items(short: bool, projects: Seq<ProjectTableItem>) -> Seq<usize> {
    selected(projects.len() as int, |i: int| !short || projects[i].tasks == 0)
}

/// The long listing shows every item; the short listing shows exactly the
/// items without tasks; either way in their order.
pub proof fn lemma_listed_items(short: bool, projects: Seq<ProjectTableItem>)
    requires
        projects.len() <= usize::MAX,
    ensures
        ({
            let l = listed_items(short, projects);
            &&& forall|k: int| 0 <= k < l.len() ==> 0 <= #[trigger] l[k] < projects.len()
            &&& forall|k: int, m: int| 0 <= k < m < l.len() ==> #[trigger] l[k] < #[trigger] l[m]
            &&& short ==> forall|k: int| 0 <= k < l.len() ==> projects[#[trigger] l[k] as int].tasks
                == 0
            &&& forall|i: int|
                0 <= i < projects.len() && (!short || projects[i].tasks == 0) ==> l.contains(
                    i as usize,
                )
            &&& !short ==> l.len() == projects.len()
        }),
{
    let p = |i: int| !short || projects[i].tasks == 0;
    crate::select::lemma_selected(projects.len() as int, p);
    let l = listed_items(short, projects);
    assert forall|k: int| 0 <= k < l.len() && short implies projects[#[trigger] l[k] as int].tasks
        == 0 by {
        assert(p(l[k] as int));
    }
    assert forall|i: int|
        0 <= i < projects.len() && (!short || projects[i].tasks == 0) implies l.contains(
        i as usize,
    ) by {
        assert(p(i));
    }
    if !short {
        assert forall|i: int| 0 <= i < projects.len() implies #[trigger] p(i) by {}
        lemma_all_selected(projects.len() as int, p);
    }
}

proof fn lemma_all_selected(n: int, p: spec_fn(int) -> bool)
    requires
        n >= 0,
        forall|i: int| 0 <= i < n ==> #[trigger] p(i),
    ensures
        selected(n, p).len() == n,
    decreases n,
{
    if n > 0 {
        lemma_all_selected(n - 1, p);
        assert(p(n - 1));
    }
}

/// What each column shows: the working number in decimal or "-", the
/// identifier, the name, the status's name, the task count in decimal and the
/// entry date or "-"; and the headings name the columns.
pub proof fn lemma_columns(item: ProjectTableItem)
    ensures
        item.id matches Some(i) ==> Column::Id.cell_text(item) == decimal(i as nat),
        item.id is None ==> Column::Id.cell_text(item) == "-"@,
        Column::Uuid.cell_text(item) == uuid_text(item.uuid),
        Column::Name.cell_text(item) == item.name@,
        Column::Tasks.cell_text(item) == signed_decimal(item.tasks as int),
        item.entry is None ==> Column::Entry.cell_text(item) == "-"@,
        item.status == ProjectStatus::Pending ==> Column::Status.cell_text(item) == "Pending"@,
        item.status == ProjectStatus::Completed ==> Column::Status.cell_text(item) == "Completed"@,
        item.status == ProjectStatus::Deleted ==> Column::Status.cell_text(item) == "Deleted"@,
        item.status == ProjectStatus::Recurring ==> Column::Status.cell_text(item) == "Recurring"@,
        item.status is Unknown ==> Column::Status.cell_text(item) == "Unknown"@,
        Column::Id.header_text() == "ID"@,
        Column::Uuid.header_text() == "UUID"@,
        Column::Name.header_text() == "Description"@,
        Column::Status.header_text() == "Status"@,
        Column::Tasks.header_text() == "Tasks"@,
        Column::Entry.header_text() == "Entry"@,
{
}

/// The rows of the project list: one per listed item (see [`listed_items`]),
/// in order, with the item's cells in the chosen columns, its task colour and
/// the striped background by the row's place in the list.
pub fn project_list_rows(
    color: bool,
    short: bool,
    projects: &[ProjectTableItem],
    columns: &[Column],
) -> (r: Vec<TableRow>)
    ensures
        r@.len() == listed_items(short, projects@).len(),
        forall|k: int|
            0 <= k < r@.len() ==> {
                let item = projects@[listed_items(short, projects@)[k] as int];
                &&& views((#[trigger] r@[k]).cells@) == columns@.map_values(
                    |c: Column| c.cell_text(item),
                )
                &&& r@[k].fg == project_color_spec(color, item.tasks as usize)
                &&& r@[k].bg == stripe_color_spec(color, k)
            },
{
    let ghost p = |i: int| !short || projects@[i].tasks == 0;
    let mut r: Vec<TableRow> = Vec::new();
    let mut i: usize = 0;
    while i < projects.len()
        invariant
            i <= projects@.len(),
            p == (|i: int| !short || projects@[i].tasks == 0),
            r@.len() == selected(i as int, p).len(),
            forall|k: int|
                0 <= k < r@.len() ==> {
                    let item = projects@[selected(i as int, p)[k] as int];
                    &&& views((#[trigger] r@[k]).cells@) == columns@.map_values(
                        |c: Column| c.cell_text(item),
                    )
                    &&& r@[k].fg == project_color_spec(color, item.tasks as usize)
                    &&& r@[k].bg == stripe_color_spec(color, k)
                },
        decreases projects.len() - i,
    {
        proof {
            crate::select::lemma_selected_step(i as int, p);
        }
        let item = &projects[i];
        if !short || item.tasks == 0 {
            let row = TableRow {
                cells: item_cells(item, columns),
                fg: project_color(color, item.tasks as usize),
                bg: stripe_color(color, r.len()),
            };
            r.push(row);
        }
        i = i + 1;
    }
    r
}

/// A task's tags joined with ", " (the empty text when it has none).
pub fn tags_text(tags: &Option<Vec<String>>) -> (r: String)
    ensures
        r@ == match tags {
            Some(t) => join_seq(views(t@), ", "@),
            None => Seq::empty(),
        },
{
    match tags {
        Some(t) => join(t.as_slice(), ", "),
        None => String::new(),
    }
}

/// The text of a task's entry time: its UTC date and time, or "-" where the
/// calendar has no such instant.
pub open spec fn entry_time_text(instant: (i64, u32)) -> Seq<char> {
    match utc_datetime_text(instant.0, instant.1) {
        Some(t) => t,
        None => "-"@,
    }
}

/// The cells a task list shows for a task: its number (or "-"), entry time,
/// description, status and tags.
pub open spec fn task_cells(t: TaskSummary) -> Seq<Seq<char>> {
    seq![
        optional_number_text(t.id),
        entry_time_text(t.entry),
        t.description@,
        t.status.label(),
        match t.tags {
            Some(tags) => join_seq(views(tags@), ", "@),
            None => Seq::empty(),
        },
    ]
}

/// The cells a task list shows for a task, in order.
pub fn task_row_cells(t: &TaskSummary) -> (r: Vec<String>)
    ensures
        views(r@) == task_cells(*t),
{
    let entry = match format_utc_datetime(t.entry.0, t.entry.1) {
        Some(s) => s,
        None => String::from_str("-"),
    };
    let r = vec![
        optional_number_string(t.id),
        entry,
        t.description.clone(),
        t.status.to_string(),
        tags_text(&t.tags),
    ];
    assert(views(r@) =~= task_cells(*t));
    r
}

/// The text a status is written with by its derived `Debug`: the variant's
/// name, and for an unrecognised status its stored text, quoted, in brackets.
pub open spec fn status_debug(st: ProjectStatus) -> Seq<char> {
    match st {
        ProjectStatus::Pending => "Pending"@,
        ProjectStatus::Completed => "Completed"@,
        ProjectStatus::Deleted => "Deleted"@,
        ProjectStatus::Recurring => "Recurring"@,
        ProjectStatus::Unknown(s) => "Unknown("@ + str_debug_text(s@) + ")"@,
    }
}

/// A known status is written by its variant's name; an unrecognised one as
/// `Unknown(` with its stored text quoted and `)`. The task cells show the
/// number, the entry time, the description, the status's name and the tags.
pub proof fn lemma_status_debug_and_task_cells(st: ProjectStatus, t: TaskSummary)
    ensures
        st == ProjectStatus::Pending ==> status_debug(st) == "Pending"@,
        st == ProjectStatus::Completed ==> status_debug(st) == "Completed"@,
        st == ProjectStatus::Deleted ==> status_debug(st) == "Deleted"@,
        st == ProjectStatus::Recurring ==> status_debug(st) == "Recurring"@,
        st matches ProjectStatus::Unknown(x) ==> status_debug(st) == "Unknown("@ + str_debug_text(x@)
            + ")"@,
        task_cells(t).len() == 5,
        task_cells(t)[0] == (match t.id {
            Some(i) => decimal(i as nat),
            None => "-"@,
        }),
        task_cells(t)[2] == t.description@,
        task_cells(t)[3] == t.status.label(),
        t.tags is None ==> task_cells(t)[4] == Seq::<char>::empty(),
{
}

/// The text a status is written with by its derived `Debug`.
pub fn status_debug_text(st: &ProjectStatus) -> (r: String)
    ensures
        r@ == status_debug(*st),
{
    match st {
        ProjectStatus::Pending => String::from_str("Pending"),
        ProjectStatus::Completed => String::from_str("Completed"),
        ProjectStatus::Deleted => String::from_str("Deleted"),
        ProjectStatus::Recurring => String::from_str("Recurring"),
        ProjectStatus::Unknown(s) => String::from_str("Unknown(").concat(
            debug_quoted(s.as_str()).as_str(),
        ).concat(")"),
    }
}

/// The rows of a project's details: its number (or "-"), identifier,
/// description and status, each after its label.
pub fn project_detail_rows(project: &ProjectRecord) -> (r: Vec<(String, String)>)
    ensures
        r@.len() == 4,
        r@[0].0@ == "ID"@,
        r@[0].1@ == optional_number_text(
            match project.working_id {
                Some(i) => Some(i as u64),
                None => None,
            },
        ),
        r@[1].0@ == "UUID"@,
        r@[1].1@ == uuid_text(project.uuid),
        r@[2].0@ == "Description"@,
        r@[2].1@ == project.description@,
        r@[3].0@ == "Status"@,
        r@[3].1@ == status_debug(project.status),
{
    let id = optional_number_string(
        match project.working_id {
            Some(i) => Some(i as u64),
            None => None,
        },
    );
    vec![
        (String::from_str("ID"), id),
        (String::from_str("UUID"), uuid_to_string(project.uuid)),
        (String::from_str("Description"), project.description.clone()),
        (String::from_str("Status"), status_debug_text(&project.status)),
    ]
}

/// The columns of the project list, in order.
pub fn default_columns() -> (r: Vec<Column>)
    ensures
        r@ == seq![
            Column::Id,
            Column::Uuid,
            Column::Status,
            Column::Name,
            Column::Tasks,
            Column::Entry,
        ],
{
    let r = vec![
        Column::Id,
        Column::Uuid,
        Column::Status,
        Column::Name,
        Column::Tasks,
        Column::Entry,
    ];
    assert(r@ =~= seq![
        Column::Id,
        Column::Uuid,
        Column::Status,
        Column::Name,
        Column::Tasks,
        Column::Entry,
    ]);
    r
}

} // verus!
