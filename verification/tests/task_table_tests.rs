use tsk::error::StoreError;
use tsk::status::TaskStatus;
use tsk::task::{Task, TaskSummary};
use tsk::task_table::TaskTable;

const NOW: &str = "2024-05-01 10:00:00";

fn add(table: &mut TaskTable, id: &str, title: &str, parent: Option<&str>, depend: Option<&str>) {
    let made = table.create_from(&vec![id.to_string()], title, "", parent, depend, NOW);
    assert_eq!(made, Ok(id.to_string()));
}

fn ids(entries: &[TaskSummary]) -> Vec<String> {
    entries.iter().map(|entry| entry.id.clone()).collect()
}

fn status_of(table: &TaskTable, id: &str) -> TaskStatus {
    table.get(id).unwrap().status
}

#[test]
fn a_new_task_is_pending_and_last() {
    let mut table = TaskTable::new();
    add(&mut table, "aaaaaa", "first", None, None);
    let id = table
        .create_from(&vec!["bbbbbb".to_string()], "Fix bug", "Fix login validation", None, None, NOW)
        .unwrap();
    assert_eq!(id, "bbbbbb");
    assert_eq!(table.rows.len(), 2);
    assert_eq!(
        table.rows[1],
        Task {
            id: "bbbbbb".to_string(),
            title: "Fix bug".to_string(),
            description: "Fix login validation".to_string(),
            status: TaskStatus::Pending,
            parent_id: None,
            depend_id: None,
            created_at: Some(NOW.to_string()),
        }
    );
}

#[test]
fn creation_with_random_ids_keeps_ids_apart() {
    let mut table = TaskTable::new();
    let first = table.create("A", "desc", None, None, NOW).unwrap();
    let second = table.create("B", "desc2", Some(&first), Some(&first), NOW).unwrap();
    assert_ne!(first, second);
    assert_eq!(table.rows.len(), 2);
    assert_eq!(table.rows[1].parent_id, Some(first.clone()));
    assert_eq!(table.rows[1].depend_id, Some(first));
    assert_eq!(table.rows[1].status, TaskStatus::Pending);
}

#[test]
fn creation_refuses_bad_links_in_order() {
    let mut table = TaskTable::new();
    add(&mut table, "aaaaaa", "a", None, None);
    let fresh = vec!["bbbbbb".to_string()];
    assert_eq!(
        table.create_from(&fresh, "t", "d", Some("BAD"), Some("ALSO"), NOW),
        Err(StoreError::InvalidId { id: "BAD".to_string() })
    );
    assert_eq!(
        table.create_from(&fresh, "t", "d", Some("zzzzzz"), Some("ALSO"), NOW),
        Err(StoreError::MissingParent { id: "zzzzzz".to_string() })
    );
    assert_eq!(
        table.create_from(&fresh, "t", "d", Some("aaaaaa"), Some("ALSO"), NOW),
        Err(StoreError::InvalidId { id: "ALSO".to_string() })
    );
    assert_eq!(
        table.create_from(&fresh, "t", "d", Some("aaaaaa"), Some("yyyyyy"), NOW),
        Err(StoreError::MissingDependency { id: "yyyyyy".to_string() })
    );
    assert_eq!(
        table.create("t", "d", None, Some("yyyyyy"), NOW),
        Err(StoreError::MissingDependency { id: "yyyyyy".to_string() })
    );
    assert_eq!(table.rows.len(), 1);
}

#[test]
fn creation_fails_when_ids_are_exhausted() {
    let mut table = TaskTable::new();
    add(&mut table, "aaaaaa", "a", None, None);
    let taken = vec!["aaaaaa".to_string(); 100];
    assert_eq!(table.create_from(&taken, "t", "d", None, None, NOW), Err(StoreError::IdsExhausted));
    assert_eq!(table.rows.len(), 1);
}

#[test]
fn dependency_blocks_completion_until_done() {
    let mut table = TaskTable::new();
    let first = table.create("A", "desc", None, None, NOW).unwrap();
    let second = table.create("B", "desc2", None, Some(&first), NOW).unwrap();
    let blocked = table.complete(&second);
    assert_eq!(blocked, Err(StoreError::DependencyNotDone { id: first.clone() }));
    assert!(blocked.unwrap_err().message().contains(&first));
    assert_eq!(status_of(&table, &second), TaskStatus::Pending);
    assert_eq!(table.complete(&first), Ok(()));
    assert_eq!(table.complete(&second), Ok(()));
    assert_eq!(status_of(&table, &first), TaskStatus::Done);
    assert_eq!(status_of(&table, &second), TaskStatus::Done);
}

#[test]
fn children_block_removal_of_the_parent() {
    let mut table = TaskTable::new();
    let parent = table.create("Epic", "", None, None, NOW).unwrap();
    let child = table.create("Sub", "", Some(&parent), None, NOW).unwrap();
    let blocked = table.remove(&parent);
    assert_eq!(blocked, Err(StoreError::HasChildren { id: parent.clone(), count: 1 }));
    assert_eq!(
        blocked.unwrap_err().message(),
        format!("Cannot remove: 1 task(s) have '{}' as parent.", parent)
    );
    assert_eq!(table.remove(&child), Ok(()));
    assert_eq!(table.remove(&parent), Ok(()));
    assert!(table.rows.is_empty());
}

#[test]
fn removal_counts_dependents_before_children() {
    let mut table = TaskTable::new();
    add(&mut table, "aaaaaa", "base", None, None);
    add(&mut table, "bbbbbb", "child", Some("aaaaaa"), None);
    add(&mut table, "cccccc", "dep1", None, Some("aaaaaa"));
    add(&mut table, "dddddd", "dep2", None, Some("aaaaaa"));
    assert_eq!(
        table.remove("aaaaaa"),
        Err(StoreError::ActiveDependents { id: "aaaaaa".to_string(), count: 2 })
    );
    assert_eq!(table.start("cccccc"), Ok(()));
    assert_eq!(
        table.remove("aaaaaa"),
        Err(StoreError::ActiveDependents { id: "aaaaaa".to_string(), count: 2 })
    );
    assert_eq!(table.complete("aaaaaa"), Ok(()));
    assert_eq!(table.complete("cccccc"), Ok(()));
    assert_eq!(
        table.remove("aaaaaa"),
        Err(StoreError::ActiveDependents { id: "aaaaaa".to_string(), count: 1 })
    );
    assert_eq!(table.complete("dddddd"), Ok(()));
    assert_eq!(
        table.remove("aaaaaa"),
        Err(StoreError::HasChildren { id: "aaaaaa".to_string(), count: 1 })
    );
    assert_eq!(table.rows.len(), 4);
}

#[test]
fn removal_takes_out_one_row_and_keeps_the_order() {
    let mut table = TaskTable::new();
    add(&mut table, "aaaaaa", "a", None, None);
    add(&mut table, "bbbbbb", "b", None, None);
    add(&mut table, "cccccc", "c", None, None);
    assert_eq!(table.remove("bbbbbb"), Ok(()));
    assert_eq!(ids(&table.list(false, true, None).unwrap()), vec!["aaaaaa", "cccccc"]);
    assert_eq!(table.get("bbbbbb"), Err(StoreError::TaskNotFound { id: "bbbbbb".to_string() }));
    assert_eq!(
        table.remove("bbbbbb"),
        Err(StoreError::TaskNotFound { id: "bbbbbb".to_string() })
    );
    assert_eq!(table.remove("nope"), Err(StoreError::InvalidId { id: "nope".to_string() }));
}

#[test]
fn a_removed_dependency_counts_as_satisfied() {
    let mut table = TaskTable::new();
    add(&mut table, "aaaaaa", "base", None, None);
    add(&mut table, "bbbbbb", "dependent", None, Some("aaaaaa"));
    assert_eq!(table.complete("aaaaaa"), Ok(()));
    assert_eq!(table.complete("bbbbbb"), Ok(()));
    assert_eq!(table.remove("aaaaaa"), Ok(()));
    assert_eq!(table.get("bbbbbb").unwrap().depend_id, Some("aaaaaa".to_string()));

    let mut dangling = TaskTable::new();
    dangling.rows.push(Task {
        id: "cccccc".to_string(),
        title: "orphan".to_string(),
        description: String::new(),
        status: TaskStatus::Pending,
        parent_id: None,
        depend_id: Some("gone00".to_string()),
        created_at: None,
    });
    assert_eq!(dangling.complete("cccccc"), Ok(()));
    assert_eq!(status_of(&dangling, "cccccc"), TaskStatus::Done);
}

#[test]
fn start_succeeds_only_from_pending() {
    let mut table = TaskTable::new();
    add(&mut table, "aaaaaa", "a", None, None);
    assert_eq!(table.start("aaaaaa"), Ok(()));
    assert_eq!(status_of(&table, "aaaaaa"), TaskStatus::InProgress);
    let again = table.start("aaaaaa");
    assert_eq!(again, Err(StoreError::AlreadyInProgress { id: "aaaaaa".to_string() }));
    assert_eq!(again.unwrap_err().message(), "Task 'aaaaaa' is already in progress.");
    assert_eq!(status_of(&table, "aaaaaa"), TaskStatus::InProgress);
    assert_eq!(table.complete("aaaaaa"), Ok(()));
    let late = table.start("aaaaaa");
    assert_eq!(late, Err(StoreError::AlreadyDone { id: "aaaaaa".to_string() }));
    assert_eq!(late.unwrap_err().message(), "Task 'aaaaaa' is already done.");
    assert_eq!(status_of(&table, "aaaaaa"), TaskStatus::Done);
    assert_eq!(table.start("bbbbbb"), Err(StoreError::TaskNotFound { id: "bbbbbb".to_string() }));
    assert_eq!(table.start("B"), Err(StoreError::InvalidId { id: "B".to_string() }));
}

#[test]
fn completion_from_pending_and_from_in_progress() {
    let mut table = TaskTable::new();
    add(&mut table, "aaaaaa", "a", None, None);
    add(&mut table, "bbbbbb", "b", None, None);
    assert_eq!(table.complete("aaaaaa"), Ok(()));
    assert_eq!(table.start("bbbbbb"), Ok(()));
    assert_eq!(table.complete("bbbbbb"), Ok(()));
    assert_eq!(status_of(&table, "aaaaaa"), TaskStatus::Done);
    assert_eq!(status_of(&table, "bbbbbb"), TaskStatus::Done);
    assert_eq!(
        table.complete("aaaaaa"),
        Err(StoreError::AlreadyDone { id: "aaaaaa".to_string() })
    );
    assert_eq!(
        table.complete("cccccc"),
        Err(StoreError::TaskNotFound { id: "cccccc".to_string() })
    );
    assert_eq!(table.complete(""), Err(StoreError::InvalidId { id: String::new() }));
}

#[test]
fn completion_is_blocked_by_a_started_dependency() {
    let mut table = TaskTable::new();
    add(&mut table, "aaaaaa", "base", None, None);
    add(&mut table, "bbbbbb", "dependent", None, Some("aaaaaa"));
    assert_eq!(table.start("aaaaaa"), Ok(()));
    assert_eq!(
        table.complete("bbbbbb"),
        Err(StoreError::DependencyNotDone { id: "aaaaaa".to_string() })
    );
}

#[test]
fn update_replaces_the_description_only() {
    let mut table = TaskTable::new();
    add(&mut table, "aaaaaa", "a", None, None);
    add(&mut table, "bbbbbb", "b", Some("aaaaaa"), None);
    assert_eq!(table.update("bbbbbb", "New detailed description"), Ok(()));
    assert_eq!(
        table.get("bbbbbb"),
        Ok(Task {
            id: "bbbbbb".to_string(),
            title: "b".to_string(),
            description: "New detailed description".to_string(),
            status: TaskStatus::Pending,
            parent_id: Some("aaaaaa".to_string()),
            depend_id: None,
            created_at: Some(NOW.to_string()),
        })
    );
    assert_eq!(table.get("aaaaaa").unwrap().description, "");
    assert_eq!(
        table.update("cccccc", "x"),
        Err(StoreError::TaskNotFound { id: "cccccc".to_string() })
    );
    assert_eq!(table.update("c", "x"), Err(StoreError::InvalidId { id: "c".to_string() }));
}

#[test]
fn listing_without_flags_shows_pending_in_creation_order() {
    let mut table = TaskTable::new();
    add(&mut table, "dddddd", "first", None, None);
    add(&mut table, "aaaaaa", "second", None, None);
    add(&mut table, "cccccc", "third", None, None);
    add(&mut table, "bbbbbb", "fourth", None, None);
    assert_eq!(table.start("aaaaaa"), Ok(()));
    assert_eq!(table.complete("cccccc"), Ok(()));
    assert_eq!(ids(&table.list(false, false, None).unwrap()), vec!["dddddd", "bbbbbb"]);
    assert_eq!(ids(&table.list(true, false, None).unwrap()), vec!["aaaaaa"]);
    assert_eq!(
        ids(&table.list(false, true, None).unwrap()),
        vec!["dddddd", "aaaaaa", "cccccc", "bbbbbb"]
    );
    assert_eq!(
        ids(&table.list(true, true, None).unwrap()),
        vec!["dddddd", "aaaaaa", "cccccc", "bbbbbb"]
    );
}

#[test]
fn listing_by_parent_shows_direct_children() {
    let mut table = TaskTable::new();
    add(&mut table, "aaaaaa", "epic", None, None);
    add(&mut table, "bbbbbb", "story", Some("aaaaaa"), None);
    add(&mut table, "cccccc", "substory", Some("bbbbbb"), None);
    add(&mut table, "dddddd", "story2", Some("aaaaaa"), Some("bbbbbb"));
    assert_eq!(table.complete("bbbbbb"), Ok(()));
    assert_eq!(ids(&table.list(false, false, Some("aaaaaa")).unwrap()), vec!["dddddd"]);
    assert_eq!(
        ids(&table.list(false, true, Some("aaaaaa")).unwrap()),
        vec!["bbbbbb", "dddddd"]
    );
    assert_eq!(ids(&table.list(false, true, Some("cccccc")).unwrap()), Vec::<String>::new());
    assert_eq!(
        table.list(false, true, Some("aaaaaa")).unwrap()[1],
        TaskSummary {
            id: "dddddd".to_string(),
            title: "story2".to_string(),
            status: TaskStatus::Pending,
            parent_id: Some("aaaaaa".to_string()),
            depend_id: Some("bbbbbb".to_string()),
        }
    );
    assert_eq!(
        table.list(false, false, Some("zzzzzz")),
        Err(StoreError::ParentNotFound { id: "zzzzzz".to_string() })
    );
    assert_eq!(
        table.list(false, false, Some("Z")),
        Err(StoreError::InvalidId { id: "Z".to_string() })
    );
}

#[test]
fn open_ids_leave_out_finished_tasks() {
    let mut table = TaskTable::new();
    add(&mut table, "aaaaaa", "a", None, None);
    add(&mut table, "bbbbbb", "b", None, None);
    add(&mut table, "cccccc", "c", None, None);
    assert_eq!(table.start("aaaaaa"), Ok(()));
    assert_eq!(table.complete("bbbbbb"), Ok(()));
    assert_eq!(table.open_ids(), vec!["aaaaaa", "cccccc"]);
    assert_eq!(TaskTable::new().open_ids(), Vec::<String>::new());
}

#[test]
fn counting_children_and_dependents() {
    let mut table = TaskTable::new();
    add(&mut table, "aaaaaa", "a", None, None);
    add(&mut table, "bbbbbb", "b", Some("aaaaaa"), Some("aaaaaa"));
    add(&mut table, "cccccc", "c", Some("aaaaaa"), None);
    add(&mut table, "dddddd", "d", None, Some("aaaaaa"));
    assert_eq!(table.count_children("aaaaaa"), 2);
    assert_eq!(table.count_active_dependents("aaaaaa"), 2);
    assert_eq!(table.count_children("bbbbbb"), 0);
    assert_eq!(table.complete("aaaaaa"), Ok(()));
    assert_eq!(table.complete("dddddd"), Ok(()));
    assert_eq!(table.count_active_dependents("aaaaaa"), 1);
    assert_eq!(table.find("cccccc"), Some(2));
    assert_eq!(table.find("eeeeee"), None);
}

#[test]
fn a_refused_command_leaves_the_table_as_it_was() {
    let mut table = TaskTable::new();
    add(&mut table, "aaaaaa", "a", None, None);
    add(&mut table, "bbbbbb", "b", Some("aaaaaa"), Some("aaaaaa"));
    let before: Vec<Task> = table.rows.clone();
    assert!(table.remove("aaaaaa").is_err());
    assert!(table.complete("bbbbbb").is_err());
    assert!(table.start("cccccc").is_err());
    assert!(table.update("cccccc", "x").is_err());
    assert!(table.create("t", "d", Some("cccccc"), None, NOW).is_err());
    assert_eq!(table.rows, before);
}

#[test]
fn status_never_moves_backward() {
    let mut table = TaskTable::new();
    add(&mut table, "aaaaaa", "a", None, None);
    let mut last = status_of(&table, "aaaaaa").to_int();
    let _ = table.start("aaaaaa");
    assert!(status_of(&table, "aaaaaa").to_int() >= last);
    last = status_of(&table, "aaaaaa").to_int();
    let _ = table.update("aaaaaa", "text");
    assert!(status_of(&table, "aaaaaa").to_int() >= last);
    let _ = table.complete("aaaaaa");
    assert!(status_of(&table, "aaaaaa").to_int() >= last);
    last = status_of(&table, "aaaaaa").to_int();
    let _ = table.start("aaaaaa");
    let _ = table.complete("aaaaaa");
    assert_eq!(status_of(&table, "aaaaaa").to_int(), last);
    assert_eq!(last, 2);
}
