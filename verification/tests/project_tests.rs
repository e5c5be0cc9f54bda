use projwarrior::error::{ConfigError, ProjChampionError};
use projwarrior::filters::ProjectFilter;
use projwarrior::query::{project_query, QueryParam};
use projwarrior::state::State;
use projwarrior::tasks::{
    active_project_tasks, count_project_tasks, project_task_indices, unique_project_names,
    TaskStatus, TaskSummary,
};

fn task(project: Option<&str>, status: TaskStatus) -> TaskSummary {
    TaskSummary {
        project: project.map(|p| p.to_string()),
        status,
        id: None,
        description: String::new(),
        entry: (0, 0),
        tags: None,
    }
}

#[test]
fn active_tasks_need_project_and_open_status() {
    let tasks = vec![
        task(Some("a"), TaskStatus::Pending),
        task(None, TaskStatus::Pending),
        task(Some("b"), TaskStatus::Completed),
        task(Some("c"), TaskStatus::Waiting),
        task(Some("d"), TaskStatus::Deleted),
        task(Some("e"), TaskStatus::Recurring),
    ];
    assert_eq!(active_project_tasks(&tasks), vec![0, 3]);
}

#[test]
fn counting_tasks_of_a_project() {
    let tasks = vec![
        task(None, TaskStatus::Pending),
        task(Some("Other Project"), TaskStatus::Pending),
        task(Some("Test Project"), TaskStatus::Pending),
        task(Some("Test Project"), TaskStatus::Waiting),
    ];
    assert_eq!(count_project_tasks("Test Project", &tasks), 2);
    assert_eq!(count_project_tasks("Test", &tasks), 0);
    assert_eq!(project_task_indices("Test Project", &tasks), vec![2, 3]);
}

#[test]
fn unique_names_in_first_order() {
    let tasks = vec![
        task(Some("b"), TaskStatus::Pending),
        task(Some("a"), TaskStatus::Pending),
        task(Some("b"), TaskStatus::Waiting),
        task(Some("c"), TaskStatus::Pending),
        task(Some("a"), TaskStatus::Pending),
    ];
    assert_eq!(unique_project_names(&tasks), vec!["b", "a", "c"]);
    assert!(unique_project_names(&[]).is_empty());
}

#[test]
fn query_without_conditions() {
    let f = ProjectFilter::builder().build();
    let q = project_query(&f);
    assert_eq!(
        q.sql,
        "SELECT uuid, id, name, state, created_at, updated_at FROM project WHERE 1=1"
    );
    assert!(q.params.is_empty());
}

#[test]
fn query_with_every_condition() {
    let st = State::Complete;
    let u: u128 = 42;
    let id: u32 = 1;
    let name = "Proj".to_string();
    let f = ProjectFilter::builder()
        .state(&st)
        .uuid(&u)
        .id(&id)
        .name(&name)
        .build();
    let q = project_query(&f);
    assert_eq!(
        q.sql,
        "SELECT uuid, id, name, state, created_at, updated_at FROM project WHERE 1=1 AND uuid = ? AND id = ? AND name LIKE ? AND state = ?"
    );
    assert_eq!(q.sql.matches('?').count(), q.params.len());
    assert!(matches!(q.params[0], QueryParam::Uuid(42)));
    assert!(matches!(q.params[1], QueryParam::Id(1)));
    match &q.params[2] {
        QueryParam::Text(t) => assert_eq!(t, "%Proj%"),
        _ => panic!("expected the name pattern"),
    }
    assert!(matches!(q.params[3], QueryParam::State(State::Complete)));
}

#[test]
fn query_with_state_only() {
    let st = State::Pending;
    let f = ProjectFilter::builder().state(&st).build();
    let q = project_query(&f);
    assert!(q.sql.ends_with(" AND state = ?"));
    assert_eq!(q.params.len(), 1);
}

#[test]
fn later_builder_call_replaces_earlier() {
    let a: u32 = 1;
    let b: u32 = 2;
    let f = ProjectFilter::builder().id(&a).id(&b).build();
    assert_eq!(f.id, Some(&2));
    let d = ProjectFilter::default();
    assert!(d.state.is_none() && d.uuid.is_none() && d.id.is_none() && d.name.is_none());
}

#[test]
fn error_messages() {
    assert_eq!(
        ConfigError::NoTask.to_string(),
        "Unable to find task binary - please ensure the `task` command is available in your $PATH"
    );
    assert_eq!(
        ProjChampionError::Replica("boom".to_string()).to_string(),
        "Unable to setup replica: boom"
    );
    assert_eq!(ProjChampionError::TaskList.to_string(), "Error querying taskwarrior");
    assert_eq!(ProjChampionError::NoProj.to_string(), "No project specified");
    assert_eq!(
        ProjChampionError::SubCommand("x".to_string()).to_string(),
        "Subcommand x not valid."
    );
    assert_eq!(ProjChampionError::InvalidUndo.to_string(), "Unable to undo last operation.");
    assert_eq!(ProjChampionError::Other.to_string(), "An error has occured");
}

#[test]
fn replica_errors_keep_their_description() {
    let err = taskchampion::Error::Usage("no such task".to_string());
    let converted = ProjChampionError::from(err);
    assert_eq!(
        converted,
        ProjChampionError::Replica("Usage Error: no such task".to_string())
    );
    assert_eq!(
        converted.to_string(),
        "Unable to setup replica: Usage Error: no such task"
    );
}
