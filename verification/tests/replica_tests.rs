use projwarrior::config::{FilterType, ProjwarriorConfig};
use projwarrior::error::ProjChampionError;
use projwarrior::projwarrior::{
    added_message, count_message, filter_projects, init_message, listing_filter,
    no_match_message, project_to_add, query_action, sync_message, sync_settings, undo_outcome,
    unsynced_notice, QueryAction,
};
use projwarrior::table::{
    column_headers, default_columns, determine_proj_color, project_color, project_list_rows,
    stripe_color, tags_text, Column, ProjectRecord, ProjectStatus, ProjectTableItem, TableColor,
};
use projwarrior::tasks::{TaskStatus, TaskSummary};
use std::path::PathBuf;

const U1: u128 = 0x67e5504410b1426f9247bb680e5fe0c8;

fn record(uuid: u128, description: &str, working_id: Option<usize>) -> ProjectRecord {
    ProjectRecord {
        uuid,
        description: description.to_string(),
        status: ProjectStatus::Pending,
        entry: Some(1431648000),
        working_id,
    }
}

fn projects() -> Vec<ProjectRecord> {
    vec![
        record(U1, "Garden shed", Some(1)),
        record(7, "Tax return", Some(2)),
        record(8, "Old garden", None),
    ]
}

#[test]
fn filter_by_working_number() {
    assert_eq!(filter_projects(&FilterType::ID(2), &projects()), vec![1]);
    assert!(filter_projects(&FilterType::ID(3), &projects()).is_empty());
}

#[test]
fn filter_by_identifier() {
    assert_eq!(filter_projects(&FilterType::Uuid(U1), &projects()), vec![0]);
}

#[test]
fn filter_by_text() {
    assert_eq!(
        filter_projects(&FilterType::Filter("garden".to_string()), &projects()),
        vec![2]
    );
    assert_eq!(
        filter_projects(&FilterType::Filter("".to_string()), &projects()),
        vec![0, 1, 2]
    );
}

#[test]
fn listing_filter_from_subcommand() {
    assert!(matches!(listing_filter(&None), Ok(None)));
    assert!(matches!(
        listing_filter(&Some("4".to_string())),
        Ok(Some(FilterType::ID(4)))
    ));
}

#[test]
fn query_actions() {
    assert_eq!(query_action(0, &Some("done".to_string())), Ok(QueryAction::NoMatch));
    assert_eq!(query_action(1, &None), Ok(QueryAction::Show));
    assert_eq!(query_action(1, &Some("show".to_string())), Ok(QueryAction::Show));
    assert_eq!(query_action(1, &Some("done".to_string())), Ok(QueryAction::Done));
    assert_eq!(query_action(1, &Some("delete".to_string())), Ok(QueryAction::Delete));
    assert_eq!(
        query_action(1, &Some("Done".to_string())),
        Err(ProjChampionError::SubCommand("Done".to_string()))
    );
    assert_eq!(query_action(3, &Some("bogus".to_string())), Ok(QueryAction::List));
}

#[test]
fn messages() {
    assert_eq!(init_message(3), "Successfully initialized 3 projects");
    assert_eq!(undo_outcome(4, true), Ok("Reverted last 4 operation".to_string()));
    assert_eq!(undo_outcome(4, false), Err(ProjChampionError::InvalidUndo));
    assert_eq!(sync_message(12), "Synced 12 to server.");
    assert_eq!(count_message(0), "0");
    assert_eq!(added_message("Garden"), "Successfully added project Garden");
    assert_eq!(no_match_message(), "No projects match given filter.");
    assert_eq!(unsynced_notice(0), "Up to date.");
    assert_eq!(unsynced_notice(5), "You have 5 unsynced changes locally.");
}

#[test]
fn adding_needs_a_name() {
    assert_eq!(project_to_add(&None), Err(ProjChampionError::NoProj));
    let name = Some("Garden".to_string());
    assert_eq!(project_to_add(&name).unwrap(), "Garden");
}

#[test]
fn sync_settings_checks_each_value() {
    let mut c = ProjwarriorConfig::with_paths(PathBuf::from("/bin/task"), PathBuf::from("/p"));
    assert_eq!(
        sync_settings(&c).err(),
        Some(ProjChampionError::Sync("Invalid sync server URL.".to_string()))
    );
    c.sync_url = Some("https://example.org".to_string());
    assert_eq!(
        sync_settings(&c).err(),
        Some(ProjChampionError::Sync("Invalid sync server client_id.".to_string()))
    );
    c.sync_client_id = Some(U1);
    assert_eq!(
        sync_settings(&c).err(),
        Some(ProjChampionError::Sync("Invalid sync server secret.".to_string()))
    );
    c.sync_secret = Some("sécret".to_string());
    let s = sync_settings(&c).ok().unwrap();
    assert_eq!(s.url, "https://example.org");
    assert_eq!(s.client_id, U1);
    assert_eq!(s.encryption_secret, "sécret".as_bytes().to_vec());
}

#[test]
fn colours() {
    assert_eq!(determine_proj_color(0), TableColor::Yellow);
    assert_eq!(determine_proj_color(3), TableColor::Green);
    assert_eq!(project_color(false, 0), TableColor::Reset);
    assert_eq!(project_color(true, 0), TableColor::Yellow);
    assert_eq!(stripe_color(true, 0), TableColor::Black);
    assert_eq!(stripe_color(true, 1), TableColor::Reset);
    assert_eq!(stripe_color(false, 2), TableColor::Reset);
}

#[test]
fn table_item_and_cells() {
    let tasks = vec![
        TaskSummary { project: Some("Garden shed".to_string()), status: TaskStatus::Pending, id: None, description: String::new(), entry: (0, 0), tags: None },
        TaskSummary { project: Some("Tax return".to_string()), status: TaskStatus::Pending, id: None, description: String::new(), entry: (0, 0), tags: None },
    ];
    let item = ProjectTableItem::from_project(&projects()[0], &tasks);
    assert_eq!(item.tasks, 1);
    assert_eq!(Column::Id.row(&item), "1");
    assert_eq!(Column::Uuid.row(&item), "67e55044-10b1-426f-9247-bb680e5fe0c8");
    assert_eq!(Column::Name.row(&item), "Garden shed");
    assert_eq!(Column::Status.row(&item), "Pending");
    assert_eq!(Column::Tasks.row(&item), "1");
    assert_eq!(Column::Entry.row(&item), "2015-05-15");
    let none = ProjectTableItem::from_project(&projects()[2], &tasks);
    assert_eq!(Column::Id.row(&none), "-");
    assert_eq!(none.tasks, 0);
    let unknown = ProjectTableItem {
        name: "x".to_string(),
        id: None,
        uuid: 0,
        status: ProjectStatus::Unknown("wishful".to_string()),
        tasks: -1,
        entry: None,
    };
    assert_eq!(Column::Status.row(&unknown), "Unknown");
    assert_eq!(Column::Tasks.row(&unknown), "-1");
    assert_eq!(Column::Entry.row(&unknown), "-");
}

#[test]
fn headers_and_rows() {
    let columns = default_columns();
    assert_eq!(
        column_headers(&columns),
        vec!["ID", "UUID", "Status", "Description", "Tasks", "Entry"]
    );
    let tasks: Vec<TaskSummary> = vec![];
    let items: Vec<ProjectTableItem> = projects()
        .iter()
        .map(|p| ProjectTableItem::from_project(p, &tasks))
        .collect();
    let rows = project_list_rows(true, false, &items, &[Column::Id, Column::Name]);
    assert_eq!(rows.len(), 3);
    assert_eq!(rows[0].cells, vec!["1", "Garden shed"]);
    assert_eq!(rows[0].fg, TableColor::Yellow);
    assert_eq!(rows[0].bg, TableColor::Black);
    assert_eq!(rows[1].bg, TableColor::Reset);
    assert_eq!(rows[2].cells, vec!["-", "Old garden"]);
    let plain = project_list_rows(false, false, &items, &[Column::Id]);
    assert_eq!(plain[0].fg, TableColor::Reset);
    assert_eq!(plain[0].bg, TableColor::Reset);
}

#[test]
fn tags() {
    assert_eq!(tags_text(&None), "");
    assert_eq!(
        tags_text(&Some(vec!["home".to_string(), "urgent".to_string()])),
        "home, urgent"
    );
}
