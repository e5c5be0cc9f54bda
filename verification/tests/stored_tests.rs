use projwarrior::cache::Cache;
use projwarrior::config::{task_bin_path, FilterType};
use projwarrior::error::{ConfigError, ProjChampionError};
use projwarrior::export::{
    active_project_export, cache_contents, read_cached, read_task_list, summaries,
};
use projwarrior::state::State;
use projwarrior::stored::{project_from_row, project_row, Project, RowError};
use projwarrior::table::{
    project_detail_rows, project_list_rows, status_debug_text, task_row_cells, Column, ProjectRecord, ProjectStatus,
    ProjectTableItem,
};
use projwarrior::tasks::{TaskStatus, TaskSummary};
use std::path::PathBuf;

const EXPORT: &str = r#"[
 {"id":1,"status":"pending","uuid":"67e55044-10b1-426f-9247-bb680e5fe0c8","entry":"20150515T000000Z","description":"dig","project":"Garden","tags":["home","outside"]},
 {"id":0,"status":"completed","uuid":"67e55044-10b1-426f-9247-bb680e5fe0c9","entry":"20150516T101010Z","description":"file","project":"Tax"},
 {"id":2,"status":"waiting","uuid":"67e55044-10b1-426f-9247-bb680e5fe0ca","entry":"20150517T000000Z","description":"plant","project":"Garden"},
 {"id":3,"status":"pending","uuid":"67e55044-10b1-426f-9247-bb680e5fe0cb","entry":"20150518T000000Z","description":"loose"}
]"#;

fn item(name: &str, tasks: i32) -> ProjectTableItem {
    ProjectTableItem {
        name: name.to_string(),
        id: None,
        uuid: 0,
        status: ProjectStatus::Pending,
        tasks,
        entry: None,
    }
}

#[test]
fn short_listing_shows_only_projects_without_tasks() {
    let items = vec![item("a", 2), item("b", 0), item("c", 1), item("d", 0)];
    let rows = project_list_rows(true, true, &items, &[Column::Name]);
    assert_eq!(rows.len(), 2);
    assert_eq!(rows[0].cells, vec!["b"]);
    assert_eq!(rows[1].cells, vec!["d"]);
    assert_eq!(rows[0].bg, projwarrior::table::TableColor::Black);
    assert_eq!(rows[1].bg, projwarrior::table::TableColor::Reset);
    let long = project_list_rows(true, false, &items, &[Column::Name]);
    assert_eq!(long.len(), 4);
    assert!(project_list_rows(false, true, &[item("x", 1)], &[Column::Name]).is_empty());
}

#[test]
fn replica_error_text_is_kept() {
    let err = taskchampion::Error::Database("locked".to_string());
    assert_eq!(
        ProjChampionError::from(err),
        ProjChampionError::Replica("Task Database Error: locked".to_string())
    );
}

#[test]
fn row_read_back_into_a_project() {
    let uuid: u128 = 0x0102030405060708090a0b0c0d0e0f10;
    let blob: Vec<u8> = (1u8..=16).collect();
    let p = project_from_row(
        &blob,
        Some(2),
        "Garden".to_string(),
        "Incubate",
        "2015-05-15T00:00:00+00:00",
        "2015-05-15T01:00:00.5+01:00",
    )
    .unwrap();
    assert_eq!(p.uuid, uuid);
    assert_eq!(p.id, Some(2));
    assert_eq!(p.name, "Garden");
    assert_eq!(p.state, State::Incubate);
    assert_eq!(p.created_at, (1431648000, 0));
    assert_eq!(p.updated_at, (1431648000, 500_000_000));
}

#[test]
fn row_errors_in_reading_order() {
    let blob: Vec<u8> = vec![0; 16];
    let good = "2015-05-15T00:00:00+00:00";
    let e = |b: &[u8], s: &str, c: &str, u: &str| project_from_row(b, None, String::new(), s, c, u).err();
    assert_eq!(e(&blob, "Pending", "yesterday", "nope"), Some(RowError::CreatedAt));
    assert_eq!(e(&blob, "Pending", good, "nope"), Some(RowError::UpdatedAt));
    assert_eq!(e(&blob[..15], "Bogus", good, good), Some(RowError::Uuid));
    assert_eq!(e(&blob, "Bogus", good, good), Some(RowError::State));
    assert!(e(&blob, "Complete", good, good).is_none());
}

#[test]
fn project_written_as_a_row() {
    let p = Project {
        name: "Garden".to_string(),
        state: State::Complete,
        id: Some(1),
        uuid: 0x0102030405060708090a0b0c0d0e0f10,
        created_at: (1431648000, 0),
        updated_at: (1431648001, 250_000_000),
    };
    let row = project_row(&p).unwrap();
    assert_eq!(row.uuid_blob, (1u8..=16).collect::<Vec<u8>>());
    assert_eq!(row.name, "Garden");
    assert_eq!(row.state, "Complete");
    assert_eq!(row.created_at, "2015-05-15T00:00:00+00:00");
    assert_eq!(row.updated_at, "2015-05-15T00:00:01.250+00:00");
    let back = project_from_row(&row.uuid_blob, p.id, row.name.clone(), &row.state, &row.created_at, &row.updated_at).unwrap();
    assert_eq!(back.uuid, p.uuid);
    assert_eq!(back.created_at, p.created_at);
    assert_eq!(back.updated_at, p.updated_at);
    let far = Project { created_at: (i64::MAX, 0), ..Project::default() };
    assert!(project_row(&far).is_none());
}

#[test]
fn test_project_default() {
    let project = Project::default();
    assert_eq!(project.name, "");
    assert_eq!(project.state, State::Pending);
    assert_eq!(project.id, None);
}

#[test]
fn stored_project_tasks() {
    let tasks = summaries(&read_task_list(EXPORT).unwrap());
    let garden = Project { name: "Garden".to_string(), ..Project::default() };
    assert_eq!(garden.get_tasks(&tasks), 2);
}

#[test]
fn export_is_read_into_summaries() {
    let tasks = read_task_list(EXPORT).unwrap();
    assert_eq!(tasks.len(), 4);
    let s = &tasks[0].summary();
    assert_eq!(s.project.as_deref(), Some("Garden"));
    assert_eq!(s.status, TaskStatus::Pending);
    assert_eq!(s.id, Some(1));
    assert_eq!(s.description, "dig");
    assert_eq!(s.entry, (1431648000, 0));
    assert_eq!(s.tags, Some(vec!["home".to_string(), "outside".to_string()]));
    assert_eq!(tasks[1].summary().status, TaskStatus::Completed);
    assert_eq!(tasks[2].summary().status, TaskStatus::Waiting);
    assert!(tasks[3].summary().project.is_none());
    assert!(read_task_list("not json").is_err());
}

#[test]
fn active_tasks_of_the_export() {
    let kept = active_project_export(read_task_list(EXPORT).unwrap());
    let names: Vec<String> = kept.iter().map(|t| t.summary().description.clone()).collect();
    assert_eq!(names, vec!["dig", "plant"]);
}

#[test]
fn cache_written_and_read_back() {
    let kept = active_project_export(read_task_list(EXPORT).unwrap());
    let text = cache_contents(&kept).unwrap();
    let cache = Cache::from_parts(PathBuf::from("/tmp/tasks.json"), 60);
    let back = read_cached(&cache, 5, &text).unwrap();
    assert_eq!(back.len(), 2);
    assert_eq!(back[1].summary().description, "plant");
    assert_eq!(
        read_cached(&cache, 60, &text).err(),
        Some("Cache invalid - Refresh required".to_string())
    );
    assert!(read_cached(&cache, 5, "[").is_err());
}

#[test]
fn task_row_cells_show_the_task() {
    let tasks = read_task_list(EXPORT).unwrap();
    assert_eq!(
        task_row_cells(tasks[0].summary()),
        vec!["1", "2015-05-15 00:00:00", "dig", "Pending", "home, outside"]
    );
    let plain = TaskSummary {
        project: None,
        status: TaskStatus::Recurring,
        id: None,
        description: "x".to_string(),
        entry: (0, 0),
        tags: None,
    };
    assert_eq!(task_row_cells(&plain), vec!["-", "1970-01-01 00:00:00", "x", "Recurring", ""]);
}

#[test]
fn task_binary_from_lookup_output() {
    assert_eq!(task_bin_path("/usr/bin/task\n"), Ok("/usr/bin/task".to_string()));
    assert_eq!(task_bin_path(""), Err(ConfigError::NoTask));
    assert_eq!(task_bin_path("  \n"), Err(ConfigError::NoTask));
}

#[test]
fn cache_round_trip_keeps_summaries() {
    let all = read_task_list(EXPORT).unwrap();
    let text = cache_contents(&all).unwrap();
    let cache = Cache::from_parts(PathBuf::from("/tmp/tasks.json"), 60);
    let back = read_cached(&cache, 59, &text).unwrap();
    let a = summaries(&all);
    let b = summaries(&back);
    assert_eq!(a.len(), b.len());
    for (x, y) in a.iter().zip(b.iter()) {
        assert_eq!(x.project, y.project);
        assert_eq!(x.status, y.status);
        assert_eq!(x.id, y.id);
        assert_eq!(x.description, y.description);
        assert_eq!(x.entry, y.entry);
        assert_eq!(x.tags, y.tags);
    }
}

#[test]
fn blank_lookup_output_is_no_task() {
    assert_eq!(task_bin_path("\t \u{a0}\u{3000}\r\n"), Err(ConfigError::NoTask));
    assert_eq!(task_bin_path("\u{2003}/opt/task\u{85}"), Ok("/opt/task".to_string()));
}

#[test]
fn detail_rows_of_a_project() {
    let record = ProjectRecord {
        uuid: 0x67e5504410b1426f9247bb680e5fe0c8,
        description: "Garden".to_string(),
        status: ProjectStatus::Pending,
        entry: None,
        working_id: Some(4),
    };
    let rows = project_detail_rows(&record);
    assert_eq!(rows[0], ("ID".to_string(), "4".to_string()));
    assert_eq!(rows[1], ("UUID".to_string(), "67e55044-10b1-426f-9247-bb680e5fe0c8".to_string()));
    assert_eq!(rows[2], ("Description".to_string(), "Garden".to_string()));
    assert_eq!(rows[3], ("Status".to_string(), "Pending".to_string()));
}

#[test]
fn trim_matches_std() {
    for s in ["", "  a b  ", "\u{2028}x\u{2029}", "\u{180e}y", "z\u{feff}", "\u{1680}\u{205f}"] {
        assert_eq!(projwarrior::text::trim(s), s.trim(), "input {s:?}");
    }
}

#[test]
fn filter_text_of_other_length_is_text() {
    match FilterType::from_str("67e55044-10b1-426f-9247-bb680e5fe0c") {
        Ok(FilterType::Filter(s)) => assert_eq!(s.len(), 35),
        other => panic!("unexpected {other:?}"),
    }
    match FilterType::from_str("{67e55044-10b1-426f-9247-bb680e5fe0c8}") {
        Ok(FilterType::Uuid(_)) => {}
        other => panic!("unexpected {other:?}"),
    }
}

#[test]
fn status_debug_texts() {
    use_status(ProjectStatus::Pending, "Pending");
    use_status(ProjectStatus::Recurring, "Recurring");
    use_status(ProjectStatus::Unknown("wish\"ful".to_string()), "Unknown(\"wish\\\"ful\")");
    assert_eq!(
        status_debug_text(&ProjectStatus::Unknown("wishful".to_string())),
        format!("{:?}", taskchampion::Status::Unknown("wishful".to_string()))
    );
}

fn use_status(st: ProjectStatus, expected: &str) {
    assert_eq!(status_debug_text(&st), expected);
}

#[test]
fn leap_second_entry_is_kept() {
    let text = r#"[{"status":"pending","uuid":"67e55044-10b1-426f-9247-bb680e5fe0c8","entry":"20161231T235960Z","description":"leap","project":"P"}]"#;
    let tasks = read_task_list(text).unwrap();
    assert_eq!(task_row_cells(tasks[0].summary())[1], "2016-12-31 23:59:60");
    let back = read_cached(&Cache::from_parts(PathBuf::from("/tmp/t.json"), 60), 0, &cache_contents(&tasks).unwrap()).unwrap();
    assert_eq!(back[0].summary().entry, tasks[0].summary().entry);
}

#[test]
fn builder_last_setter_wins() {
    let s = State::Complete;
    let n = "x".to_string();
    let n2 = "y".to_string();
    let f = projwarrior::filters::ProjectFilter::builder().name(&n).state(&s).name(&n2).build();
    assert_eq!(f.state, Some(&State::Complete));
    assert_eq!(f.name, Some(&"y".to_string()));
    assert!(f.uuid.is_none() && f.id.is_none());
}
