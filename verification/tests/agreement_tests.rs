use rusqlite::Connection;
use tsk::memory::{Memory, MemoryTable};
use tsk::store::{
    complete_task, create_memory_from, create_task_from, get_memory, get_task, get_task_ids,
    init_db, list_memories, list_tasks, load_memories, load_tasks, migrate_db, remove_memory,
    remove_task, search_memories, start_task, update_task,
};
use tsk::task::Task;
use tsk::task_table::TaskTable;

const NOW: &str = "2024-05-01 10:00:00";

const IDS: [&str; 6] = ["aaaaaa", "bbbbbb", "cccccc", "dddddd", "eeeeee", "ffffff"];

fn project() -> Connection {
    let conn = Connection::open_in_memory().unwrap();
    init_db(&conn).unwrap();
    migrate_db(&conn).unwrap();
    conn
}

fn next(seed: &mut u64) -> usize {
    *seed = seed.wrapping_mul(6364136223846793005).wrapping_add(1442695040888963407);
    (*seed >> 33) as usize
}

fn pick(seed: &mut u64) -> &'static str {
    IDS[next(seed) % IDS.len()]
}

fn maybe(seed: &mut u64) -> Option<&'static str> {
    if next(seed) % 3 == 0 {
        Some(pick(seed))
    } else {
        None
    }
}

fn without_time(rows: Vec<Task>) -> Vec<Task> {
    rows.into_iter().map(|row| Task { created_at: None, ..row }).collect()
}

fn notes_without_time(rows: Vec<Memory>) -> Vec<Memory> {
    rows.into_iter().map(|row| Memory { created_at: None, ..row }).collect()
}

#[test]
fn the_stored_tasks_follow_the_table() {
    let conn = project();
    let mut table = TaskTable::new();
    let mut seed: u64 = 2024;
    let mut changes = 0;
    for step in 0..600 {
        let id = pick(&mut seed);
        match next(&mut seed) % 6 {
            0 | 1 => {
                let candidates = vec![id.to_string(), pick(&mut seed).to_string()];
                let parent = maybe(&mut seed);
                let depend = maybe(&mut seed);
                let title = format!("task {}", step);
                let expected = table.create_from(&candidates, &title, "d", parent, depend, NOW);
                let stored = create_task_from(&conn, &candidates, &title, "d", parent, depend);
                assert_eq!(stored, expected);
            }
            2 => assert_eq!(start_task(&conn, id), table.start(id)),
            3 => assert_eq!(complete_task(&conn, id), table.complete(id)),
            4 => {
                let expected = table.remove(id);
                if expected.is_ok() {
                    changes += 1;
                }
                assert_eq!(remove_task(&conn, id), expected);
            }
            _ => {
                let text = format!("text {}", step);
                assert_eq!(update_task(&conn, id, &text), table.update(id, &text));
            }
        }
        assert_eq!(without_time(load_tasks(&conn).unwrap().rows), without_time(table.rows.clone()));
        let parent = maybe(&mut seed);
        let inprogress = next(&mut seed) % 2 == 0;
        let all = next(&mut seed) % 3 == 0;
        assert_eq!(list_tasks(&conn, inprogress, all, parent), table.list(inprogress, all, parent));
        assert_eq!(get_task_ids(&conn).unwrap(), table.open_ids());
        let seen = get_task(&conn, id).map(|task| Task { created_at: None, ..task });
        assert_eq!(seen, table.get(id).map(|task| Task { created_at: None, ..task }));
    }
    assert!(changes > 10);
    assert!(!table.rows.is_empty());
}

#[test]
fn the_stored_notes_follow_the_table() {
    let conn = project();
    let mut table = MemoryTable::new();
    let mut seed: u64 = 77;
    let words = ["api", "auth", "x", "deploy,ci", "JWT"];
    for step in 0..300 {
        let id = pick(&mut seed);
        match next(&mut seed) % 3 {
            0 | 1 => {
                let candidates = vec![id.to_string()];
                let content = format!("{} note {}", words[next(&mut seed) % words.len()], step);
                let tags = if next(&mut seed) % 2 == 0 {
                    Some(words[next(&mut seed) % words.len()])
                } else {
                    None
                };
                let expected = table.create_from(&candidates, &content, tags, NOW);
                assert_eq!(create_memory_from(&conn, &candidates, &content, tags), expected);
            }
            _ => assert_eq!(remove_memory(&conn, id), table.remove(id)),
        }
        assert_eq!(
            notes_without_time(load_memories(&conn).unwrap().rows),
            notes_without_time(table.rows.clone())
        );
        let tag = if next(&mut seed) % 2 == 0 {
            Some(words[next(&mut seed) % words.len()])
        } else {
            None
        };
        let last = if next(&mut seed) % 2 == 0 { Some(next(&mut seed) % 4) } else { None };
        assert_eq!(
            notes_without_time(list_memories(&conn, tag, last).unwrap()),
            notes_without_time(table.list(tag, last))
        );
        let query = words[next(&mut seed) % words.len()];
        assert_eq!(
            notes_without_time(search_memories(&conn, query).unwrap()),
            notes_without_time(table.search(query))
        );
        let seen = get_memory(&conn, id).map(|note| Memory { created_at: None, ..note });
        assert_eq!(seen, table.get(id).map(|note| Memory { created_at: None, ..note }));
    }
    assert!(!table.rows.is_empty());
}
