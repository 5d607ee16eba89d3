use rusqlite::Connection;
use tsk::error::{ErrorKind, StoreError};
use tsk::ident::is_valid_id;
use tsk::memory::Memory;
use tsk::status::TaskStatus;
use tsk::store::{
    complete_task, create_memory, create_memory_from, create_task, create_task_from,
    current_time, delete_memory_statement, delete_task_statement, description_statement,
    done_statement, get_memory, get_task, get_task_ids, init_db, insert_memory_statement,
    insert_task_statement, list_memories, list_tasks, load_memories, load_tasks, migrate_db,
    readable_memories, readable_texts, remove_memory, remove_task, search_memories,
    start_statement, start_task, storage_failure, update_task, version_or_zero, DELETE_MEMORY,
    DELETE_TASK, INSERT_MEMORY, INSERT_TASK, SET_DESCRIPTION, SET_DONE, SET_IN_PROGRESS,
};

fn project() -> Connection {
    let conn = Connection::open_in_memory().unwrap();
    init_db(&conn).unwrap();
    migrate_db(&conn).unwrap();
    conn
}

fn code_of(conn: &Connection, id: &str) -> i32 {
    conn.query_row("SELECT done FROM tasks WHERE id = ?1", [id], |row| row.get(0)).unwrap()
}

fn version_of(conn: &Connection) -> String {
    conn.query_row("SELECT value FROM meta WHERE key = 'schema_version'", [], |row| row.get(0))
        .unwrap()
}

fn columns_of(conn: &Connection, table: &str) -> Vec<String> {
    let mut stmt = conn.prepare(&format!("PRAGMA table_info({})", table)).unwrap();
    let names = stmt.query_map([], |row| row.get::<_, String>(1)).unwrap();
    names.map(|name| name.unwrap()).collect()
}

#[test]
fn stored_dependency_scenario() {
    let conn = project();
    let first = create_task(&conn, "A", "desc", None, None).unwrap();
    let second = create_task(&conn, "B", "desc2", None, Some(&first)).unwrap();
    assert!(is_valid_id(&first));
    assert!(is_valid_id(&second));
    assert_ne!(first, second);
    let blocked = complete_task(&conn, &second).unwrap_err();
    assert_eq!(blocked, StoreError::DependencyNotDone { id: first.clone() });
    assert_eq!(blocked.kind(), ErrorKind::Constraint);
    assert_eq!(
        blocked.message(),
        format!("Cannot complete: depends on '{}' which is not done.", first)
    );
    assert_eq!(code_of(&conn, &second), 0);
    assert_eq!(complete_task(&conn, &first), Ok(()));
    assert_eq!(complete_task(&conn, &second), Ok(()));
    assert_eq!(code_of(&conn, &first), 2);
    assert_eq!(code_of(&conn, &second), 2);
}

#[test]
fn stored_parent_scenario() {
    let conn = project();
    let parent = create_task(&conn, "Epic", "", None, None).unwrap();
    let child = create_task(&conn, "Sub", "", Some(&parent), None).unwrap();
    let blocked = remove_task(&conn, &parent).unwrap_err();
    assert_eq!(blocked, StoreError::HasChildren { id: parent.clone(), count: 1 });
    assert_eq!(blocked.kind(), ErrorKind::Constraint);
    assert_eq!(remove_task(&conn, &child), Ok(()));
    assert_eq!(remove_task(&conn, &parent), Ok(()));
    assert_eq!(list_tasks(&conn, false, true, None), Ok(Vec::new()));
}

#[test]
fn stored_memory_scenario() {
    let conn = project();
    let id = create_memory(&conn, "x", Some("a,b")).unwrap();
    assert!(is_valid_id(&id));
    let listed = list_memories(&conn, Some("a"), None).unwrap();
    assert!(listed.iter().any(|note| note.id == id));
    let other = list_memories(&conn, Some("z"), None).unwrap();
    assert!(!other.iter().any(|note| note.id == id));
    let found = search_memories(&conn, "x").unwrap();
    assert!(found.iter().any(|note| note.id == id));
    assert_eq!(remove_memory(&conn, &id), Ok(()));
    let gone = get_memory(&conn, &id).unwrap_err();
    assert_eq!(gone, StoreError::MemoryNotFound { id: id.clone() });
    assert_eq!(gone.kind(), ErrorKind::NotFound);
}

#[test]
fn a_stored_task_reads_back_in_full() {
    let conn = project();
    let parent = create_task(&conn, "Epic", "big", None, None).unwrap();
    let id = create_task(&conn, "Fix bug", "Fix login validation", Some(&parent), Some(&parent))
        .unwrap();
    let task = get_task(&conn, &id).unwrap();
    assert_eq!(task.id, id);
    assert_eq!(task.title, "Fix bug");
    assert_eq!(task.description, "Fix login validation");
    assert_eq!(task.status, TaskStatus::Pending);
    assert_eq!(task.parent_id, Some(parent.clone()));
    assert_eq!(task.depend_id, Some(parent));
    assert!(task.created_at.is_some());
    assert_eq!(task.created_at.unwrap().len(), 19);
}

#[test]
fn stored_tasks_move_through_their_states() {
    let conn = project();
    let id = create_task(&conn, "A", "desc", None, None).unwrap();
    assert_eq!(code_of(&conn, &id), 0);
    assert_eq!(start_task(&conn, &id), Ok(()));
    assert_eq!(code_of(&conn, &id), 1);
    assert_eq!(get_task(&conn, &id).unwrap().status, TaskStatus::InProgress);
    assert_eq!(start_task(&conn, &id), Err(StoreError::AlreadyInProgress { id: id.clone() }));
    assert_eq!(complete_task(&conn, &id), Ok(()));
    assert_eq!(code_of(&conn, &id), 2);
    assert_eq!(start_task(&conn, &id), Err(StoreError::AlreadyDone { id: id.clone() }));
    assert_eq!(complete_task(&conn, &id), Err(StoreError::AlreadyDone { id: id.clone() }));
    assert_eq!(code_of(&conn, &id), 2);
}

#[test]
fn stored_description_is_replaced() {
    let conn = project();
    let id = create_task(&conn, "A", "old", None, None).unwrap();
    assert_eq!(update_task(&conn, &id, "new text"), Ok(()));
    let task = get_task(&conn, &id).unwrap();
    assert_eq!(task.description, "new text");
    assert_eq!(task.title, "A");
    assert_eq!(
        update_task(&conn, "zzzzzz", "x"),
        Err(StoreError::TaskNotFound { id: "zzzzzz".to_string() })
    );
}

#[test]
fn stored_listing_follows_creation_order() {
    let conn = project();
    let mut made: Vec<String> = Vec::new();
    for n in 0..6 {
        made.push(create_task(&conn, &format!("t{}", n), "d", None, None).unwrap());
    }
    start_task(&conn, &made[1]).unwrap();
    complete_task(&conn, &made[4]).unwrap();
    let pending: Vec<String> =
        list_tasks(&conn, false, false, None).unwrap().into_iter().map(|t| t.id).collect();
    assert_eq!(pending, vec![made[0].clone(), made[2].clone(), made[3].clone(), made[5].clone()]);
    let started: Vec<String> =
        list_tasks(&conn, true, false, None).unwrap().into_iter().map(|t| t.id).collect();
    assert_eq!(started, vec![made[1].clone()]);
    let all: Vec<String> =
        list_tasks(&conn, false, true, None).unwrap().into_iter().map(|t| t.id).collect();
    assert_eq!(all, made);
    let open = get_task_ids(&conn).unwrap();
    assert_eq!(
        open,
        vec![made[0].clone(), made[1].clone(), made[2].clone(), made[3].clone(), made[5].clone()]
    );
}

#[test]
fn stored_listing_by_parent() {
    let conn = project();
    let epic = create_task(&conn, "Epic", "", None, None).unwrap();
    let one = create_task(&conn, "one", "", Some(&epic), None).unwrap();
    let two = create_task(&conn, "two", "", Some(&epic), None).unwrap();
    let _deep = create_task(&conn, "deep", "", Some(&one), None).unwrap();
    let children: Vec<String> =
        list_tasks(&conn, false, false, Some(&epic)).unwrap().into_iter().map(|t| t.id).collect();
    assert_eq!(children, vec![one, two]);
    assert_eq!(
        list_tasks(&conn, false, false, Some("zzzzzz")),
        Err(StoreError::ParentNotFound { id: "zzzzzz".to_string() })
    );
}

#[test]
fn stored_creation_refuses_missing_links() {
    let conn = project();
    assert_eq!(
        create_task(&conn, "t", "d", Some("zzzzzz"), None),
        Err(StoreError::MissingParent { id: "zzzzzz".to_string() })
    );
    assert_eq!(
        create_task(&conn, "t", "d", None, Some("zzzzzz")),
        Err(StoreError::MissingDependency { id: "zzzzzz".to_string() })
    );
    assert_eq!(load_tasks(&conn).unwrap().rows.len(), 0);
}

#[test]
fn stored_removal_is_blocked_by_active_dependents() {
    let conn = project();
    let base = create_task(&conn, "base", "", None, None).unwrap();
    let dependent = create_task(&conn, "dep", "", None, Some(&base)).unwrap();
    assert_eq!(
        remove_task(&conn, &base),
        Err(StoreError::ActiveDependents { id: base.clone(), count: 1 })
    );
    complete_task(&conn, &base).unwrap();
    complete_task(&conn, &dependent).unwrap();
    assert_eq!(remove_task(&conn, &base), Ok(()));
    assert_eq!(get_task(&conn, &base), Err(StoreError::TaskNotFound { id: base.clone() }));
    assert_eq!(get_task(&conn, &dependent).unwrap().depend_id, Some(base));
}

#[test]
fn stored_notes_are_listed_newest_first() {
    let conn = project();
    let one = create_memory(&conn, "API uses JWT tokens", Some("api,auth")).unwrap();
    let two = create_memory(&conn, "Deploy via CI", None).unwrap();
    let three = create_memory(&conn, "JWT keys rotate", Some("auth")).unwrap();
    let all: Vec<String> =
        list_memories(&conn, None, None).unwrap().into_iter().map(|m| m.id).collect();
    assert_eq!(all, vec![three.clone(), two.clone(), one.clone()]);
    let last: Vec<String> =
        list_memories(&conn, None, Some(2)).unwrap().into_iter().map(|m| m.id).collect();
    assert_eq!(last, vec![three.clone(), two]);
    let tagged: Vec<String> =
        list_memories(&conn, Some("auth"), Some(5)).unwrap().into_iter().map(|m| m.id).collect();
    assert_eq!(tagged, vec![three.clone(), one.clone()]);
    let found: Vec<String> =
        search_memories(&conn, "JWT").unwrap().into_iter().map(|m| m.id).collect();
    assert_eq!(found, vec![three, one.clone()]);
    let note = get_memory(&conn, &one).unwrap();
    assert_eq!(note.content, "API uses JWT tokens");
    assert_eq!(note.tags, Some("api,auth".to_string()));
    assert!(note.created_at.is_some());
    assert_eq!(load_memories(&conn).unwrap().rows.len(), 3);
}

#[test]
fn stored_creation_takes_the_first_free_candidate() {
    let conn = project();
    let candidates = vec!["aaaaaa".to_string(), "bbbbbb".to_string()];
    assert_eq!(
        create_task_from(&conn, &candidates, "A", "d", None, None),
        Ok("aaaaaa".to_string())
    );
    assert_eq!(
        create_task_from(&conn, &candidates, "B", "d", Some("aaaaaa"), None),
        Ok("bbbbbb".to_string())
    );
    assert_eq!(
        create_task_from(&conn, &candidates, "C", "d", None, None),
        Err(StoreError::IdsExhausted)
    );
    assert_eq!(load_tasks(&conn).unwrap().rows.len(), 2);
    assert_eq!(
        create_memory_from(&conn, &candidates, "x", None),
        Ok("aaaaaa".to_string())
    );
    let taken = vec!["aaaaaa".to_string(); 100];
    let exhausted = create_memory_from(&conn, &taken, "y", None).unwrap_err();
    assert_eq!(exhausted, StoreError::IdsExhausted);
    assert_eq!(exhausted.kind(), ErrorKind::Exhaustion);
    assert_eq!(load_memories(&conn).unwrap().rows.len(), 1);
}

#[test]
fn a_malformed_id_is_refused_before_the_store_is_read() {
    let conn = Connection::open_in_memory().unwrap();
    let bad = StoreError::InvalidId { id: "BAD".to_string() };
    assert_eq!(get_task(&conn, "BAD"), Err(bad.clone()));
    assert_eq!(update_task(&conn, "BAD", "x"), Err(bad.clone()));
    assert_eq!(start_task(&conn, "BAD"), Err(bad.clone()));
    assert_eq!(complete_task(&conn, "BAD"), Err(bad.clone()));
    assert_eq!(remove_task(&conn, "BAD"), Err(bad.clone()));
    assert_eq!(get_memory(&conn, "BAD"), Err(bad.clone()));
    assert_eq!(remove_memory(&conn, "BAD"), Err(bad.clone()));
    assert_eq!(list_tasks(&conn, false, false, Some("BAD")), Err(bad.clone()));
    assert_eq!(create_task(&conn, "t", "d", Some("BAD"), None), Err(bad.clone()));
    assert_eq!(create_task(&conn, "t", "d", None, Some("BAD")), Err(bad));
}

#[test]
fn a_store_without_tables_fails_as_storage() {
    let conn = Connection::open_in_memory().unwrap();
    let failure = get_task(&conn, "aaaaaa").unwrap_err();
    assert_eq!(failure.kind(), ErrorKind::Storage);
    assert!(failure.message().contains("tasks"));
    assert_eq!(create_task(&conn, "t", "d", None, None).unwrap_err().kind(), ErrorKind::Storage);
    assert_eq!(list_memories(&conn, None, None).unwrap_err().kind(), ErrorKind::Storage);
    assert_eq!(get_task_ids(&conn).unwrap_err().kind(), ErrorKind::Storage);
    assert_eq!(migrate_db(&conn).unwrap_err().kind(), ErrorKind::Storage);
}

#[test]
fn a_new_project_has_the_newest_schema() {
    let conn = project();
    assert_eq!(version_of(&conn), "2");
    assert_eq!(
        columns_of(&conn, "tasks"),
        vec!["id", "title", "description", "done", "parent_id", "depend_id", "created_at"]
    );
    assert_eq!(columns_of(&conn, "memories"), vec!["id", "content", "tags", "created_at"]);
    assert_eq!(columns_of(&conn, "meta"), vec!["key", "value"]);
}

#[test]
fn a_legacy_store_is_migrated() {
    let conn = Connection::open_in_memory().unwrap();
    conn.execute(
        "CREATE TABLE tasks (
            id TEXT PRIMARY KEY,
            title TEXT NOT NULL,
            description TEXT NOT NULL,
            done INTEGER DEFAULT 0,
            created_at TEXT DEFAULT CURRENT_TIMESTAMP
        )",
        [],
    )
    .unwrap();
    conn.execute(
        "INSERT INTO tasks (id, title, description, done) VALUES ('aaaaaa', 'old done', 'kept', 1)",
        [],
    )
    .unwrap();
    conn.execute(
        "INSERT INTO tasks (id, title, description, done) VALUES ('bbbbbb', 'old open', 'also kept', 0)",
        [],
    )
    .unwrap();

    assert_eq!(migrate_db(&conn), Ok(()));
    assert_eq!(code_of(&conn, "aaaaaa"), 2);
    assert_eq!(code_of(&conn, "bbbbbb"), 0);
    assert_eq!(version_of(&conn), "2");
    assert!(columns_of(&conn, "tasks").contains(&"parent_id".to_string()));
    assert!(columns_of(&conn, "tasks").contains(&"depend_id".to_string()));
    assert_eq!(columns_of(&conn, "memories"), vec!["id", "content", "tags", "created_at"]);
    let done = get_task(&conn, "aaaaaa").unwrap();
    assert_eq!(done.status, TaskStatus::Done);
    assert_eq!(done.title, "old done");
    assert_eq!(done.description, "kept");
    assert_eq!(done.parent_id, None);
    let open = get_task(&conn, "bbbbbb").unwrap();
    assert_eq!(open.status, TaskStatus::Pending);
    assert_eq!(open.description, "also kept");
}

#[test]
fn migrating_again_changes_nothing() {
    let conn = project();
    let id = create_task(&conn, "A", "desc", None, None).unwrap();
    start_task(&conn, &id).unwrap();
    let note = create_memory(&conn, "kept", None).unwrap();
    assert_eq!(migrate_db(&conn), Ok(()));
    assert_eq!(migrate_db(&conn), Ok(()));
    assert_eq!(code_of(&conn, &id), 1);
    assert_eq!(version_of(&conn), "2");
    assert_eq!(get_task(&conn, &id).unwrap().status, TaskStatus::InProgress);
    assert_eq!(get_memory(&conn, &note).unwrap().content, "kept");
    assert_eq!(columns_of(&conn, "tasks").len(), 7);
}

#[test]
fn a_later_version_is_left_alone() {
    let conn = project();
    conn.execute("UPDATE meta SET value = '7' WHERE key = 'schema_version'", []).unwrap();
    let id = create_task(&conn, "A", "desc", None, None).unwrap();
    start_task(&conn, &id).unwrap();
    assert_eq!(migrate_db(&conn), Ok(()));
    assert_eq!(version_of(&conn), "7");
    assert_eq!(code_of(&conn, &id), 1);
}

#[test]
fn initializing_twice_keeps_the_rows() {
    let conn = project();
    let id = create_task(&conn, "A", "desc", None, None).unwrap();
    assert_eq!(init_db(&conn), Ok(()));
    assert_eq!(get_task(&conn, &id).unwrap().title, "A");
}

#[test]
fn a_storage_failure_carries_the_report() {
    let failure = storage_failure("no such table: tasks".to_string());
    assert_eq!(failure, StoreError::Storage { message: "no such table: tasks".to_string() });
    assert_eq!(failure.kind(), ErrorKind::Storage);
    assert_eq!(failure.message(), "no such table: tasks");
    assert_eq!(storage_failure(String::new()), StoreError::Storage { message: String::new() });
}

#[test]
fn an_unreadable_version_counts_as_zero() {
    assert_eq!(version_or_zero(Ok(0)), 0);
    assert_eq!(version_or_zero(Ok(2)), 2);
    assert_eq!(version_or_zero(Ok(7)), 7);
    assert_eq!(version_or_zero(Ok(-1)), -1);
    assert_eq!(version_or_zero(Err(rusqlite::Error::QueryReturnedNoRows)), 0);
    assert_eq!(version_or_zero(Err(rusqlite::Error::InvalidColumnIndex(3))), 0);
}

#[test]
fn a_store_without_a_counter_is_migrated_from_zero() {
    let conn = Connection::open_in_memory().unwrap();
    init_db(&conn).unwrap();
    conn.execute("INSERT INTO tasks (id, title, description, done) VALUES ('aaaaaa', 't', 'd', 1)", [])
        .unwrap();
    assert_eq!(migrate_db(&conn), Ok(()));
    assert_eq!(code_of(&conn, "aaaaaa"), 2);
    assert_eq!(version_of(&conn), "2");
}

fn text(value: &str) -> Option<String> {
    Some(value.to_string())
}

#[test]
fn every_change_has_its_statement() {
    assert_eq!(
        insert_task_statement("a1b2c3", "T", "D", Some("pppppp"), None, "2024-05-01 10:00:00"),
        (
            INSERT_TASK,
            vec![
                text("a1b2c3"),
                text("T"),
                text("D"),
                text("pppppp"),
                None,
                text("2024-05-01 10:00:00"),
            ]
        )
    );
    assert_eq!(
        insert_task_statement("a1b2c3", "", "", None, Some("dddddd"), "now"),
        (INSERT_TASK, vec![text("a1b2c3"), text(""), text(""), None, text("dddddd"), text("now")])
    );
    assert_eq!(
        description_statement("a1b2c3", "new text"),
        (SET_DESCRIPTION, vec![text("new text"), text("a1b2c3")])
    );
    assert_eq!(start_statement("a1b2c3"), (SET_IN_PROGRESS, vec![text("a1b2c3")]));
    assert_eq!(done_statement("a1b2c3"), (SET_DONE, vec![text("a1b2c3")]));
    assert_eq!(delete_task_statement("a1b2c3"), (DELETE_TASK, vec![text("a1b2c3")]));
    assert_eq!(
        insert_memory_statement("m1m2m3", "x", Some("a,b"), "now"),
        (INSERT_MEMORY, vec![text("m1m2m3"), text("x"), text("a,b"), text("now")])
    );
    assert_eq!(
        insert_memory_statement("m1m2m3", "x", None, "now"),
        (INSERT_MEMORY, vec![text("m1m2m3"), text("x"), None, text("now")])
    );
    assert_eq!(delete_memory_statement("m1m2m3"), (DELETE_MEMORY, vec![text("m1m2m3")]));
    assert_eq!(SET_IN_PROGRESS, "UPDATE tasks SET done = 1 WHERE id = ?1");
    assert_eq!(SET_DONE, "UPDATE tasks SET done = 2 WHERE id = ?1");
    assert_eq!(SET_DESCRIPTION, "UPDATE tasks SET description = ?1 WHERE id = ?2");
    assert_eq!(DELETE_TASK, "DELETE FROM tasks WHERE id = ?1");
    assert_eq!(DELETE_MEMORY, "DELETE FROM memories WHERE id = ?1");
}

#[test]
fn a_stored_row_carries_the_time_of_its_creation() {
    let conn = project();
    let before = current_time(&conn).unwrap();
    let id = create_task(&conn, "A", "d", None, None).unwrap();
    let note = create_memory(&conn, "x", None).unwrap();
    let after = current_time(&conn).unwrap();
    assert_eq!(before.len(), 19);
    let made = get_task(&conn, &id).unwrap().created_at.unwrap();
    assert!(before <= made && made <= after);
    let noted = get_memory(&conn, &note).unwrap().created_at.unwrap();
    assert!(before <= noted && noted <= after);
    let stored: String = conn
        .query_row("SELECT created_at FROM tasks WHERE id = ?1", [id.as_str()], |row| row.get(0))
        .unwrap();
    assert_eq!(stored, made);
}

#[test]
fn unreadable_rows_are_passed_over() {
    let read = vec![
        Ok("id".to_string()),
        Err(rusqlite::Error::InvalidColumnIndex(1)),
        Ok("title".to_string()),
    ];
    assert_eq!(readable_texts(&read), vec!["id", "title"]);
    assert_eq!(readable_texts(&Vec::new()), Vec::<String>::new());
    let note = Memory {
        id: "aaaaaa".to_string(),
        content: "x".to_string(),
        tags: None,
        created_at: None,
    };
    let rows = vec![Err(rusqlite::Error::QueryReturnedNoRows), Ok(note.clone())];
    assert_eq!(readable_memories(&rows), vec![note]);
}

#[test]
fn a_note_that_cannot_be_read_is_passed_over() {
    let conn = project();
    let good = create_memory(&conn, "kept", Some("a")).unwrap();
    conn.execute("INSERT INTO memories (id, content) VALUES ('zzzzzz', x'ff00')", []).unwrap();
    let listed: Vec<String> =
        list_memories(&conn, None, None).unwrap().into_iter().map(|m| m.id).collect();
    assert_eq!(listed, vec![good.clone()]);
    let found: Vec<String> =
        search_memories(&conn, "").unwrap().into_iter().map(|m| m.id).collect();
    assert_eq!(found, vec![good]);
    assert_eq!(
        get_memory(&conn, "zzzzzz"),
        Err(StoreError::MemoryNotFound { id: "zzzzzz".to_string() })
    );
}
