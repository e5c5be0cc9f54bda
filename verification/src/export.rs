//! The task list exported by taskwarrior and its cache file: reading the JSON
//! text into tasks, keeping the tasks projects work with, and writing them back.
use crate::cache::Cache;
use crate::select::selected;
use crate::tasks::{is_active_project_task, TaskStatus, TaskSummary, TaskView};
use task_hookrs::status::TaskStatus as HookStatus;
use task_hookrs::task::Task;
use vstd::prelude::*;

verus! {

/// A `task_hookrs::task::Task`, held whole and opaque: Verus refuses to
/// declare the outside type itself, whose parameter is bound by a trait of
/// that crate. The library only carries it, to write it back.
#[verifier::external_body]
pub struct HookTask(Task);

/// A task of the export: the task itself, kept for writing it back, and what
/// is read of it. Only reading a task list makes one, so the summary is always
/// that of the task it sits beside.
pub struct ExportedTask {
    task: HookTask,
    summary: TaskSummary,
}

impl ExportedTask {
    /// What is read of the task.
    pub closed spec fn spec_summary(self) -> TaskSummary {
        self.summary
    }

    /// What is read of the task.
    pub fn summary(&self) -> (r: &TaskSummary)
        ensures
            *r == self.spec_summary(),
    {
        &self.summary
    }
}

/// What is read of each task of a list.
pub open spec fn summary_views(tasks: Seq<ExportedTask>) -> Seq<TaskView> {
    tasks.map_values(|t: ExportedTask| t.spec_summary()@)
}

/// What `serde_json::from_str::<Vec<task_hookrs::task::Task>>` makes of a text,
/// each task read as its project, status, number, description, entry time
/// (UTC seconds and nanoseconds) and tags; nothing when the text is rejected.
pub uninterp spec fn task_export(text: Seq<char>) -> Option<Seq<TaskView>>;

/// Parses the text with `serde_json::from_str` into `task_hookrs` tasks and
/// reads each (`project`, `status`, `id`, `description`, `entry` as UTC
/// seconds and nanoseconds, `tags`). Claimed: on success the summaries are `task_export` of
/// the text; on failure `task_export` is nothing and the error is serde's
/// message, of which nothing is claimed.
#[verifier::external_body]
pub(crate) fn parse_task_list(text: &str) -> (r: Result<Vec<ExportedTask>, String>)
    ensures
        match r {
            Ok(v) => task_export(text@) == Some(summary_views(v@)),
            Err(_) => task_export(text@) is None,
        },
{
    let tasks: Vec<Task> = serde_json::from_str(text).map_err(|e| e.to_string())?;
    Ok(tasks.into_iter().map(|t| ExportedTask {
        summary: TaskSummary {
            project: t.project().cloned(),
            status: match t.status() {
                HookStatus::Pending => TaskStatus::Pending, HookStatus::Deleted => TaskStatus::Deleted,
                HookStatus::Completed => TaskStatus::Completed, HookStatus::Waiting => TaskStatus::Waiting,
                HookStatus::Recurring => TaskStatus::Recurring,
            },
            id: t.id(), description: t.description().clone(),
            entry: (t.entry().and_utc().timestamp(), t.entry().and_utc().timestamp_subsec_nanos()),
            tags: t.tags().cloned(),
        },
        task: HookTask(t),
    }).collect())
}

/// Writes the tasks with `serde_json::to_string_pretty`. Claimed: what is
/// written reads back as the same tasks. `Task`'s `Serialize` and
/// `Deserialize` are derived and its dates are written and read in one
/// format, so reading the text gives each task's project, status, number,
/// description, entry time and tags again. Writing cannot fail: every field
/// serializes (dates through `format!`, attribute keys are strings, floats
/// that are not finite are written as null).
#[verifier::external_body]
fn tasks_to_json(tasks: &[ExportedTask]) -> (r: Result<String, String>)
    ensures
        r is Ok,
        r matches Ok(s) ==> task_export(s@) == Some(summary_views(tasks@)),
{
    let list: Vec<&Task> = tasks.iter().map(|t| &t.task.0).collect();
    serde_json::to_string_pretty(&list).map_err(|e| e.to_string())
}

/// The tasks of a task list text (the output of `task export`).
pub fn read_task_list(text: &str) -> (r: Result<Vec<ExportedTask>, String>)
    ensures
        match r {
            Ok(v) => task_export(text@) == Some(summary_views(v@)),
            Err(_) => task_export(text@) is None,
        },
{
    parse_task_list(text)
}

/// The tasks of a cache file whose text is `text` and which was last written
/// `age_secs` seconds ago: refused as stale when it is as old as the cache's
/// timeout, otherwise read as a task list.
pub fn read_cached(cache: &Cache, age_secs: u64, text: &str) -> (r: Result<Vec<ExportedTask>, String>)
    ensures
        age_secs >= cache.spec_timeout() ==> (r matches Err(e) && e@
            == "Cache invalid - Refresh required"@),
        age_secs < cache.spec_timeout() ==> match r {
            Ok(v) => task_export(text@) == Some(summary_views(v@)),
            Err(_) => task_export(text@) is None,
        },
{
    match cache.validate_age(age_secs) {
        Ok(()) => parse_task_list(text),
        Err(e) => Err(e),
    }
}

/// The text a cache file is written with: the tasks as pretty-printed JSON,
/// which reads back as the same tasks.
pub fn cache_contents(tasks: &[ExportedTask]) -> (r: Result<String, String>)
    ensures
        r matches Ok(s) && task_export(s@) == Some(summary_views(tasks@)),
{
    tasks_to_json(tasks)
}

/// What the cache is written with reads back, within the timeout, as the
/// same tasks: where a text reads as the written tasks' summaries, a
/// successful read of it gives those summaries, and a read within the
/// timeout succeeds.
pub proof fn lemma_cache_round_trip(
    written: Seq<ExportedTask>,
    text: Seq<char>,
    read: Result<Seq<ExportedTask>, ()>,
)
    requires
        task_export(text) == Some(summary_views(written)),
        match read {
            Ok(v) => task_export(text) == Some(summary_views(v)),
            Err(_) => task_export(text) is None,
        },
    ensures
        read matches Ok(v) && summary_views(v) == summary_views(written),
{
}

/// What is read of each task, in order.
pub fn summaries(tasks: &[ExportedTask]) -> (r: Vec<TaskSummary>)
    ensures
        r@.len() == tasks@.len(),
        forall|k: int|
            0 <= k < tasks@.len() ==> {
                &&& (#[trigger] r@[k])@ == tasks@[k].spec_summary()@
                &&& r@[k].project == tasks@[k].spec_summary().project
                &&& r@[k].status == tasks@[k].spec_summary().status
            },
{
    let mut r: Vec<TaskSummary> = Vec::new();
    let mut i: usize = 0;
    while i < tasks.len()
        invariant
            i <= tasks@.len(),
            r@.len() == i,
            forall|k: int|
                0 <= k < i ==> {
                    &&& (#[trigger] r@[k])@ == tasks@[k].spec_summary()@
                    &&& r@[k].project == tasks@[k].spec_summary().project
                    &&& r@[k].status == tasks@[k].spec_summary().status
                },
        decreases tasks.len() - i,
    {
        r.push(tasks[i].summary.clone());
        i = i + 1;
    }
    r
}

/// The tasks that belong to a project and are pending or waiting, in order.
pub fn active_project_export(tasks: Vec<ExportedTask>) -> (r: Vec<ExportedTask>)
    ensures
        ({
            let keep = selected(tasks@.len() as int, |i: int| is_active_project_task(tasks@[i].spec_summary()));
            &&& r@.len() == keep.len()
            &&& forall|k: int| 0 <= k < r@.len() ==> (#[trigger] r@[k]) == tasks@[keep[k] as int]
        }),
{
    let ghost orig = tasks@;
    let ghost p = |i: int| is_active_project_task(orig[i].spec_summary());
    let ghost n = orig.len();
    assert(n == tasks.len());
    let mut rest = tasks;
    let mut r: Vec<ExportedTask> = Vec::new();
    let mut i: usize = 0;
    while rest.len() > 0
        invariant
            i <= n,
            n <= usize::MAX,
            n == orig.len(),
            rest@ == orig.subrange(i as int, n as int),
            rest@.len() == n - i,
            p == (|i: int| is_active_project_task(orig[i].spec_summary())),
            r@.len() == selected(i as int, p).len(),
            forall|k: int| 0 <= k < r@.len() ==> (#[trigger] r@[k]) == orig[selected(i as int, p)[k] as int],
        decreases rest.len(),
    {
        proof {
            crate::select::lemma_selected_step(i as int, p);
        }
        let t = rest.remove(0);
        assert(t == orig[i as int]);
        let keep = t.summary.project.is_some() && (match t.summary.status {
            TaskStatus::Pending => true,
            TaskStatus::Waiting => true,
            _ => false,
        });
        if keep {
            r.push(t);
        }
        assert(rest@ =~= orig.subrange(i + 1, n as int));
        i = i + 1;
    }
    r
}

} // verus!
