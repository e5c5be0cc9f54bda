//! The tasks of the task list, as far as projects are concerned, and what is read from them.
use crate::select::{dedup, selected};
use crate::text::str_eq;
use vstd::prelude::*;

verus! {

/// The status of a task in the task list.
#[derive(Debug, Clone, Copy, PartialEq, Eq, Structural)]
pub enum TaskStatus {
    Pending,
    Deleted,
    Completed,
    Waiting,
    Recurring,
}

impl TaskStatus {
    /// The shown name of a status.
    pub open spec fn label(self) -> Seq<char> {
        match self {
            TaskStatus::Pending => "Pending"@,
            TaskStatus::Deleted => "Deleted"@,
            TaskStatus::Completed => "Completed"@,
            TaskStatus::Waiting => "Waiting"@,
            TaskStatus::Recurring => "Recurring"@,
        }
    }

    /// The shown name of a status.
    pub fn to_string(&self) -> (r: String)
        ensures
            r@ == self.label(),
    {
        match self {
            TaskStatus::Pending => String::from_str("Pending"),
            TaskStatus::Deleted => String::from_str("Deleted"),
            TaskStatus::Completed => String::from_str("Completed"),
            TaskStatus::Waiting => String::from_str("Waiting"),
            TaskStatus::Recurring => String::from_str("Recurring"),
        }
    }
}

/// Each status is shown by its own name, as taskwarrior writes it, and no
/// two statuses are shown alike.
pub proof fn lemma_status_labels(a: TaskStatus, b: TaskStatus)
    ensures
        TaskStatus::Pending.label() == "Pending"@,
        TaskStatus::Deleted.label() == "Deleted"@,
        TaskStatus::Completed.label() == "Completed"@,
        TaskStatus::Waiting.label() == "Waiting"@,
        TaskStatus::Recurring.label() == "Recurring"@,
        a.label() == b.label() ==> a == b,
{
    reveal_strlit("Pending");
    reveal_strlit("Deleted");
    reveal_strlit("Completed");
    reveal_strlit("Waiting");
    reveal_strlit("Recurring");
    assert("Pending"@.len() == 7);
    assert("Deleted"@.len() == 7);
    assert("Waiting"@.len() == 7);
    assert("Completed"@.len() == 9);
    assert("Recurring"@.len() == 9);
    assert("Pending"@[0] != "Deleted"@[0]);
    assert("Pending"@[0] != "Waiting"@[0]);
    assert("Deleted"@[0] != "Waiting"@[0]);
    assert("Completed"@[0] != "Recurring"@[0]);
}

/// The contents of a task summary: project, status, number, description,
/// entry time (seconds since the epoch and nanoseconds, UTC) and tags.
pub type TaskView = (
    Option<Seq<char>>,
    TaskStatus,
    Option<u64>,
    Seq<char>,
    (i64, u32),
    Option<Seq<Seq<char>>>,
);

/// What is read of a task: the project it belongs to, its status, and what
/// a task list shows of it (number, description, entry time, tags).
pub struct TaskSummary {
    pub project: Option<String>,
    pub status: TaskStatus,
    pub id: Option<u64>,
    pub description: String,
    pub entry: (i64, u32),
    pub tags: Option<Vec<String>>,
}

impl View for TaskSummary {
    type V = TaskView;

    open spec fn view(&self) -> TaskView {
        (
            match self.project {
                Some(p) => Some(p@),
                None => None,
            },
            self.status,
            self.id,
            self.description@,
            self.entry,
            match self.tags {
                Some(t) => Some(crate::text::views(t@)),
                None => None,
            },
        )
    }
}

fn clone_strings(v: &Vec<String>) -> (r: Vec<String>)
    ensures
        crate::text::views(r@) == crate::text::views(v@),
{
    let mut r: Vec<String> = Vec::new();
    let mut i: usize = 0;
    while i < v.len()
        invariant
            i <= v.len(),
            crate::text::views(r@) == crate::text::views(v@.take(i as int)),
        decreases v.len() - i,
    {
        let ghost before = r@;
        let s = v[i].clone();
        r.push(s);
        assert(crate::text::views(r@) =~= crate::text::views(before).push(s@));
        assert(v@.take(i + 1) =~= v@.take(i as int).push(v@[i as int]));
        assert(crate::text::views(v@.take(i + 1)) =~= crate::text::views(v@.take(i as int)).push(
            v@[i as int]@,
        ));
        i = i + 1;
    }
    assert(v@.take(v.len() as int) =~= v@);
    r
}

impl Clone for TaskSummary {
    fn clone(&self) -> (r: TaskSummary)
        ensures
            r@ == self@,
            r.project == self.project,
            r.status == self.status,
    {
        TaskSummary {
            project: match &self.project {
                Some(p) => Some(p.clone()),
                None => None,
            },
            status: self.status,
            id: self.id,
            description: self.description.clone(),
            entry: self.entry,
            tags: match &self.tags {
                Some(t) => Some(clone_strings(t)),
                None => None,
            },
        }
    }
}

/// The task belongs to the project named `name`.
pub open spec fn in_project(t: TaskSummary, name: Seq<char>) -> bool {
    t.project matches Some(p) && p@ == name
}

/// The task belongs to some project and is still to be done (pending or waiting).
pub open spec fn is_active_project_task(t: TaskSummary) -> bool {
    &&& t.project is Some
    &&& (t.status == TaskStatus::Pending || t.status == TaskStatus::Waiting)
}

/// The tasks projects work with are those of some project that are pending
/// or waiting: completed, deleted and recurring tasks, and tasks without a
/// project, are left out.
pub proof fn lemma_active_tasks(t: TaskSummary)
    ensures
        t.project is Some && t.status == TaskStatus::Pending ==> is_active_project_task(t),
        t.project is Some && t.status == TaskStatus::Waiting ==> is_active_project_task(t),
        t.status == TaskStatus::Completed ==> !is_active_project_task(t),
        t.status == TaskStatus::Deleted ==> !is_active_project_task(t),
        t.status == TaskStatus::Recurring ==> !is_active_project_task(t),
        t.project is None ==> !is_active_project_task(t),
{
}

/// A task belongs to a project exactly when its project's name is that name,
/// character for character.
pub proof fn lemma_in_project(t: TaskSummary, name: Seq<char>)
    ensures
        in_project(t, name) <==> (t.project is Some && t.project->0@ == name),
{
}

/// The project names of the tasks (the empty text for a task without one).
pub open spec fn project_names(tasks: Seq<TaskSummary>) -> Seq<Seq<char>> {
    tasks.map_values(
        |t: TaskSummary|
            match t.project {
                Some(p) => p@,
                None => Seq::empty(),
            },
    )
}

/// The positions of the tasks that belong to a project and are pending or
/// waiting, in order: the tasks that the project listing works with.
pub fn active_project_tasks(tasks: &[TaskSummary]) -> (r: Vec<usize>)
    ensures
        r@ == selected(tasks@.len() as int, |i: int| is_active_project_task(tasks@[i])),
{
    let ghost p = |i: int| is_active_project_task(tasks@[i]);
    let mut r: Vec<usize> = Vec::new();
    let mut i: usize = 0;
    while i < tasks.len()
        invariant
            i <= tasks@.len(),
            r@ == selected(i as int, p),
            p == (|i: int| is_active_project_task(tasks@[i])),
        decreases tasks.len() - i,
    {
        let t = &tasks[i];
        let keep = t.project.is_some() && (match t.status {
            TaskStatus::Pending => true,
            TaskStatus::Waiting => true,
            _ => false,
        });
        proof {
            crate::select::lemma_selected_step(i as int, p);
        }
        if keep {
            r.push(i);
        }
        i = i + 1;
    }
    r
}

fn belongs_to(t: &TaskSummary, name: &str) -> (r: bool)
    ensures
        r == in_project(*t, name@),
{
    match &t.project {
        Some(p) => str_eq(p.as_str(), name),
        None => false,
    }
}

/// The positions of the tasks of the project named `name`, in order.
pub fn project_task_indices(name: &str, tasks: &[TaskSummary]) -> (r: Vec<usize>)
    ensures
        r@ == selected(tasks@.len() as int, |i: int| in_project(tasks@[i], name@)),
{
    let ghost p = |i: int| in_project(tasks@[i], name@);
    let mut r: Vec<usize> = Vec::new();
    let mut i: usize = 0;
    while i < tasks.len()
        invariant
            i <= tasks@.len(),
            r@ == selected(i as int, p),
            p == (|i: int| in_project(tasks@[i], name@)),
        decreases tasks.len() - i,
    {
        proof {
            crate::select::lemma_selected_step(i as int, p);
        }
        if belongs_to(&tasks[i], name) {
            r.push(i);
        }
        i = i + 1;
    }
    r
}

/// The number of tasks of the project named `name`, as an `i32` (wrapping as `as` does).
pub fn count_project_tasks(name: &str, tasks: &[TaskSummary]) -> (r: i32)
    ensures
        r == selected(tasks@.len() as int, |i: int| in_project(tasks@[i], name@)).len() as i32,
{
    let ghost p = |i: int| in_project(tasks@[i], name@);
    let mut count: usize = 0;
    let mut i: usize = 0;
    while i < tasks.len()
        invariant
            i <= tasks@.len(),
            count == selected(i as int, p).len(),
            count <= i,
            p == (|i: int| in_project(tasks@[i], name@)),
        decreases tasks.len() - i,
    {
        proof {
            crate::select::lemma_selected_step(i as int, p);
        }
        if belongs_to(&tasks[i], name) {
            count = count + 1;
        }
        i = i + 1;
    }
    count as i32
}

fn contains_name(names: &Vec<String>, name: &String) -> (r: bool)
    ensures
        r == crate::text::views(names@).contains(name@),
{
    let ghost vs = crate::text::views(names@);
    let mut j: usize = 0;
    while j < names.len()
        invariant
            j <= names.len(),
            vs == crate::text::views(names@),
            forall|k: int| 0 <= k < j ==> vs[k] != name@,
        decreases names.len() - j,
    {
        if names[j] == *name {
            assert(vs[j as int] == name@);
            return true;
        }
        j = j + 1;
    }
    false
}

/// The project names of the tasks, each once, in the order of first occurrence.
pub fn unique_project_names(tasks: &[TaskSummary]) -> (r: Vec<String>)
    requires
        forall|i: int| 0 <= i < tasks@.len() ==> (#[trigger] tasks@[i]).project is Some,
    ensures
        crate::text::views(r@) == dedup(project_names(tasks@)),
{
    let mut names: Vec<String> = Vec::new();
    let mut i: usize = 0;
    while i < tasks.len()
        invariant
            i <= tasks@.len(),
            crate::text::views(names@) == dedup(project_names(tasks@.take(i as int))),
            forall|i: int| 0 <= i < tasks@.len() ==> (#[trigger] tasks@[i]).project is Some,
        decreases tasks.len() - i,
    {
        let name = match &tasks[i].project {
            Some(p) => p,
            None => {
                return names;
            },
        };
        let ghost before = project_names(tasks@.take(i as int));
        let ghost after = project_names(tasks@.take(i + 1));
        assert(after.drop_last() =~= before);
        assert(after.last() == name@);
        if !contains_name(&names, name) {
            names.push(name.clone());
            assert(crate::text::views(names@) =~= dedup(before).push(name@));
        }
        i = i + 1;
    }
    assert(tasks@.take(tasks@.len() as int) =~= tasks@);
    names
}

/// Importing takes each project name of the tasks exactly once: no name
/// comes twice, and a name comes exactly when some task belongs to that project.
pub proof fn lemma_unique_project_names(tasks: Seq<TaskSummary>)
    requires
        forall|i: int| 0 <= i < tasks.len() ==> (#[trigger] tasks[i]).project is Some,
    ensures
        dedup(project_names(tasks)).no_duplicates(),
        forall|name: Seq<char>|
            dedup(project_names(tasks)).contains(name) <==> exists|i: int|
                0 <= i < tasks.len() && #[trigger] in_project(tasks[i], name),
{
    let names = project_names(tasks);
    crate::select::lemma_dedup(names);
    assert forall|name: Seq<char>|
        dedup(names).contains(name) <==> exists|i: int|
            0 <= i < tasks.len() && #[trigger] in_project(tasks[i], name) by {
        assert(dedup(names).contains(name) <==> names.contains(name));
        if names.contains(name) {
            let i = choose|i: int| 0 <= i < names.len() && names[i] == name;
            assert(in_project(tasks[i], name));
        }
        if exists|i: int| 0 <= i < tasks.len() && #[trigger] in_project(tasks[i], name) {
            let i = choose|i: int| 0 <= i < tasks.len() && #[trigger] in_project(tasks[i], name);
            assert(names[i] == name);
        }
    }
}

} // verus!
