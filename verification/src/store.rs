//! The persisted stores: every operation reads the rows of a project from
//! its database, decides on them with the verified tables, and writes the
//! one change that the operation makes.
//!
//! What the database holds is outside the proofs. The contracts here say
//! what holds of every answer that it may give: an identifier is checked
//! before the database is asked, and an outcome other than a storage
//! failure is the outcome of the rules on the rows that were read. What is
//! written is fixed one call down: every statement that changes the store
//! is made by a function that says exactly which statement it is and which
//! parameters it carries.

use vstd::prelude::*;
use vstd::string::*;
use rusqlite::Connection;
use crate::db::{
    error_text, execute, query_memories, query_number, query_tasks, query_text, query_texts,
};
use crate::error::{StoreError, StoreErrorView};
use crate::ident::{
    draw_candidates, picked_is_a_candidate, picked_is_acceptable, valid_id, validate_id,
    MAX_ATTEMPTS,
};
use crate::memory::{
    fetched_memory, memory_ids, memory_listing, memory_position_is_first, removed_memory,
    search_result, tagged, Memory, MemoryTable, MemoryView,
};
use crate::memory_laws::{
    bound_cuts_after_ordering, carries, listing_is_newest_first, mentions,
    search_is_newest_first,
};
use crate::selection::selects;
use crate::schema::{migration_plan, MigrationStep};
use crate::task::{
    completed, fetched, ids_of, link_error, listing, listing_error, open_ids, own_opt,
    position_is_first, removed, started, status_filter, summary_of, updated, Task, TaskSummary,
    TaskView,
};
use crate::task_laws::{admits, listing_is_in_creation_order, lists};
use crate::task_table::{created, TaskTable};
use crate::text::{contains_text, decimal_string, opt_str_text, opt_text};

verus! {

pub const CREATE_TASKS: &'static str =
    "CREATE TABLE IF NOT EXISTS tasks (
            id TEXT PRIMARY KEY,
            title TEXT NOT NULL,
            description TEXT NOT NULL,
            done INTEGER DEFAULT 0,
            parent_id TEXT,
            depend_id TEXT,
            created_at TEXT DEFAULT CURRENT_TIMESTAMP
        )";

pub const CREATE_META: &'static str =
    "CREATE TABLE IF NOT EXISTS meta (
            key TEXT PRIMARY KEY,
            value TEXT
        )";

pub const CREATE_MEMORIES: &'static str =
    "CREATE TABLE IF NOT EXISTS memories (
            id TEXT PRIMARY KEY,
            content TEXT NOT NULL,
            tags TEXT,
            created_at TEXT DEFAULT CURRENT_TIMESTAMP
        )";

pub const TASK_COLUMNS: &'static str = "PRAGMA table_info(tasks)";

pub const SCHEMA_VERSION: &'static str =
    "SELECT CAST(value AS INTEGER) FROM meta WHERE key = 'schema_version'";

pub const ADD_PARENT_COLUMN: &'static str = "ALTER TABLE tasks ADD COLUMN parent_id TEXT";

pub const ADD_DEPEND_COLUMN: &'static str = "ALTER TABLE tasks ADD COLUMN depend_id TEXT";

pub const REWRITE_LEGACY_DONE: &'static str = "UPDATE tasks SET done = 2 WHERE done = 1";

pub const RECORD_VERSION: &'static str =
    "INSERT OR REPLACE INTO meta (key, value) VALUES ('schema_version', ?1)";

pub const SELECT_TASKS: &'static str =
    "SELECT id, title, description, done, parent_id, depend_id, created_at FROM tasks ORDER BY created_at, rowid";

pub const SELECT_MEMORIES: &'static str =
    "SELECT id, content, tags, created_at FROM memories ORDER BY created_at, rowid";

pub const CURRENT_TIME: &'static str = "SELECT CURRENT_TIMESTAMP";

pub const INSERT_TASK: &'static str =
    "INSERT INTO tasks (id, title, description, parent_id, depend_id, created_at) VALUES (?1, ?2, ?3, ?4, ?5, ?6)";

pub const SET_DESCRIPTION: &'static str = "UPDATE tasks SET description = ?1 WHERE id = ?2";

pub const SET_IN_PROGRESS: &'static str = "UPDATE tasks SET done = 1 WHERE id = ?1";

pub const SET_DONE: &'static str = "UPDATE tasks SET done = 2 WHERE id = ?1";

pub const DELETE_TASK: &'static str = "DELETE FROM tasks WHERE id = ?1";

pub const INSERT_MEMORY: &'static str =
    "INSERT INTO memories (id, content, tags, created_at) VALUES (?1, ?2, ?3, ?4)";

pub const DELETE_MEMORY: &'static str = "DELETE FROM memories WHERE id = ?1";

/// The failure that stands for a failure of the database, from its report.
pub fn storage_failure(message: String) -> (failure: StoreError)
    ensures
        failure@ == (StoreErrorView::Storage { message: message@ }),
{
    StoreError::Storage { message }
}

/// Runs one statement that changes the store.
fn run(conn: &Connection, sql: &str, params: &Vec<Option<String>>) -> (outcome: Result<
    (),
    StoreError,
>)
    ensures
        outcome matches Err(e) ==> e@ is Storage,
{
    match execute(conn, sql, params) {
        Ok(_) => Ok(()),
        Err(e) => Err(storage_failure(error_text(&e))),
    }
}

/// A statement says `sql` with the positional parameters `params`, each a
/// text or NULL.
pub open spec fn says(
    statement: (&'static str, Vec<Option<String>>),
    sql: Seq<char>,
    params: Seq<Option<Seq<char>>>,
) -> bool {
    statement.0@ == sql && statement.1.deep_view() == params
}

/// The parameter list without parameters.
fn no_params() -> (params: Vec<Option<String>>)
    ensures
        params.deep_view() == Seq::<Option<Seq<char>>>::empty(),
{
    let params: Vec<Option<String>> = Vec::new();
    assert(params.deep_view() =~= Seq::<Option<Seq<char>>>::empty());
    params
}

/// The parameter list with one more parameter at its end.
fn and_param(params: Vec<Option<String>>, value: Option<&str>) -> (longer: Vec<Option<String>>)
    ensures
        longer.deep_view() == params.deep_view().push(opt_str_text(value)),
{
    let mut longer = params;
    let owned = own_opt(value);
    longer.push(owned);
    assert(longer.deep_view() =~= params.deep_view().push(opt_str_text(value)));
    longer
}

/// The parameter list with one identifier.
fn only(id: &str) -> (params: Vec<Option<String>>)
    ensures
        params.deep_view() == seq![Some(id@)],
{
    let params = and_param(no_params(), Some(id));
    assert(params.deep_view() =~= seq![Some(id@)]);
    params
}

/// The statement that stores a new task: its identifier, its texts, its
/// links and the time of its creation.
pub fn insert_task_statement(
    id: &str,
    title: &str,
    description: &str,
    parent: Option<&str>,
    depend: Option<&str>,
    created_at: &str,
) -> (statement: (&'static str, Vec<Option<String>>))
    ensures
        says(
            statement,
            INSERT_TASK@,
            seq![
                Some(id@),
                Some(title@),
                Some(description@),
                opt_str_text(parent),
                opt_str_text(depend),
                Some(created_at@),
            ],
        ),
{
    let params = and_param(no_params(), Some(id));
    let params = and_param(params, Some(title));
    let params = and_param(params, Some(description));
    let params = and_param(params, parent);
    let params = and_param(params, depend);
    let params = and_param(params, Some(created_at));
    assert(params.deep_view() =~= seq![
        Some(id@),
        Some(title@),
        Some(description@),
        opt_str_text(parent),
        opt_str_text(depend),
        Some(created_at@),
    ]);
    (INSERT_TASK, params)
}

/// The statement that replaces the description of the task `id`.
pub fn description_statement(id: &str, description: &str) -> (statement: (
    &'static str,
    Vec<Option<String>>,
))
    ensures
        says(statement, SET_DESCRIPTION@, seq![Some(description@), Some(id@)]),
{
    let params = and_param(and_param(no_params(), Some(description)), Some(id));
    assert(params.deep_view() =~= seq![Some(description@), Some(id@)]);
    (SET_DESCRIPTION, params)
}

/// The statement that marks the task `id` as in progress.
pub fn start_statement(id: &str) -> (statement: (&'static str, Vec<Option<String>>))
    ensures
        says(statement, SET_IN_PROGRESS@, seq![Some(id@)]),
{
    (SET_IN_PROGRESS, only(id))
}

/// The statement that marks the task `id` as done.
pub fn done_statement(id: &str) -> (statement: (&'static str, Vec<Option<String>>))
    ensures
        says(statement, SET_DONE@, seq![Some(id@)]),
{
    (SET_DONE, only(id))
}

/// The statement that deletes the task `id`.
pub fn delete_task_statement(id: &str) -> (statement: (&'static str, Vec<Option<String>>))
    ensures
        says(statement, DELETE_TASK@, seq![Some(id@)]),
{
    (DELETE_TASK, only(id))
}

/// The statement that stores a new note: its identifier, its content, its
/// tags and the time of its creation.
pub fn insert_memory_statement(id: &str, content: &str, tags: Option<&str>, created_at: &str) -> (statement:
    (&'static str, Vec<Option<String>>))
    ensures
        says(
            statement,
            INSERT_MEMORY@,
            seq![Some(id@), Some(content@), opt_str_text(tags), Some(created_at@)],
        ),
{
    let params = and_param(no_params(), Some(id));
    let params = and_param(params, Some(content));
    let params = and_param(params, tags);
    let params = and_param(params, Some(created_at));
    assert(params.deep_view() =~= seq![
        Some(id@),
        Some(content@),
        opt_str_text(tags),
        Some(created_at@),
    ]);
    (INSERT_MEMORY, params)
}

/// The statement that deletes the note `id`.
pub fn delete_memory_statement(id: &str) -> (statement: (&'static str, Vec<Option<String>>))
    ensures
        says(statement, DELETE_MEMORY@, seq![Some(id@)]),
{
    (DELETE_MEMORY, only(id))
}

/// Runs a statement that changes the store.
fn run_statement(conn: &Connection, statement: (&'static str, Vec<Option<String>>)) -> (outcome:
    Result<(), StoreError>)
    ensures
        outcome matches Err(e) ==> e@ is Storage,
{
    run(conn, statement.0, &statement.1)
}

/// Asks the store for the time, as it writes it into a new row.
pub fn current_time(conn: &Connection) -> (outcome: Result<String, StoreError>)
    ensures
        outcome matches Err(e) ==> e@ is Storage,
{
    match query_text(conn, CURRENT_TIME) {
        Ok(time) => Ok(time),
        Err(e) => Err(storage_failure(error_text(&e))),
    }
}

/// Creates the three tables of a new project unless they exist.
pub fn init_db(conn: &Connection) -> (outcome: Result<(), StoreError>)
    ensures
        outcome matches Err(e) ==> e@ is Storage,
{
    let none: Vec<Option<String>> = Vec::new();
    run(conn, CREATE_TASKS, &none)?;
    run(conn, CREATE_META, &none)?;
    run(conn, CREATE_MEMORIES, &none)
}

/// The statement that takes a migration step, with its parameters.
pub fn step_statement(step: MigrationStep) -> (statement: (&'static str, Vec<Option<String>>))
    ensures
        statement.0@ == match step {
            MigrationStep::AddParentColumn => ADD_PARENT_COLUMN@,
            MigrationStep::AddDependColumn => ADD_DEPEND_COLUMN@,
            MigrationStep::RewriteLegacyDone => REWRITE_LEGACY_DONE@,
            MigrationStep::CreateMemories => CREATE_MEMORIES@,
            MigrationStep::RecordVersion(_) => RECORD_VERSION@,
        },
        match step {
            MigrationStep::RecordVersion(v) => statement.1.deep_view() == seq![
                Some(crate::text::decimal(v as nat)),
            ],
            _ => statement.1@.len() == 0,
        },
{
    let mut params: Vec<Option<String>> = Vec::new();
    match step {
        MigrationStep::AddParentColumn => (ADD_PARENT_COLUMN, params),
        MigrationStep::AddDependColumn => (ADD_DEPEND_COLUMN, params),
        MigrationStep::RewriteLegacyDone => (REWRITE_LEGACY_DONE, params),
        MigrationStep::CreateMemories => (CREATE_MEMORIES, params),
        MigrationStep::RecordVersion(v) => {
            params.push(Some(decimal_string(v as usize)));
            assert(params.deep_view() =~= seq![Some(crate::text::decimal(v as nat))]);
            (RECORD_VERSION, params)
        },
    }
}

/// Brings a stored project to the newest schema: makes sure of the metadata
/// table, asks the store for its task columns and its version, and takes
/// the planned steps in order. A store without a readable version counts as
/// version zero.
pub fn migrate_db(conn: &Connection) -> (outcome: Result<(), StoreError>)
    ensures
        outcome matches Err(e) ==> e@ is Storage,
{
    let none: Vec<Option<String>> = Vec::new();
    run(conn, CREATE_META, &none)?;
    let columns = match query_texts(conn, TASK_COLUMNS, 1) {
        Ok(columns) => readable_texts(&columns),
        Err(e) => {
            return Err(storage_failure(error_text(&e)));
        },
    };
    // The counter is read after the metadata table was made sure of; what
    // cannot be read counts as version zero.
    let read = query_number(conn, SCHEMA_VERSION);
    let version: i32 = version_or_zero(read);
    let steps = migration_plan(&columns, version);
    let mut i: usize = 0;
    while i < steps.len()
        invariant
            i <= steps@.len(),
        decreases steps@.len() - i,
    {
        let (sql, params) = step_statement(steps[i]);
        run(conn, sql, &params)?;
        i += 1;
    }
    Ok(())
}

/// Reads the task rows of a project, oldest first.
pub fn load_tasks(conn: &Connection) -> (outcome: Result<TaskTable, StoreError>)
    ensures
        outcome matches Err(e) ==> e@ is Storage,
{
    match query_tasks(conn, SELECT_TASKS) {
        Ok(rows) => Ok(TaskTable { rows }),
        Err(e) => Err(storage_failure(error_text(&e))),
    }
}

/// Reads the memory rows of a project, oldest first. A row that cannot be
/// read is passed over.
pub fn load_memories(conn: &Connection) -> (outcome: Result<MemoryTable, StoreError>)
    ensures
        outcome matches Err(e) ==> e@ is Storage,
{
    match query_memories(conn, SELECT_MEMORIES) {
        Ok(rows) => Ok(MemoryTable { rows: readable_memories(&rows) }),
        Err(e) => Err(storage_failure(error_text(&e))),
    }
}

/// The rows that could be read, in their order: a row that came as an error
/// is passed over.
pub open spec fn readable<T>(rows: Seq<Result<T, rusqlite::Error>>) -> Seq<T> {
    rows.filter(|row: Result<T, rusqlite::Error>| row is Ok).map_values(
        |row: Result<T, rusqlite::Error>| row->Ok_0,
    )
}

/// Passes over the texts that could not be read.
pub fn readable_texts(rows: &Vec<Result<String, rusqlite::Error>>) -> (texts: Vec<String>)
    ensures
        texts@ == readable(rows@),
{
    let ghost keep = |row: Result<String, rusqlite::Error>| row is Ok;
    let ghost value = |row: Result<String, rusqlite::Error>| row->Ok_0;
    let mut texts: Vec<String> = Vec::new();
    let mut i: usize = 0;
    assert(rows@.take(0) =~= Seq::<Result<String, rusqlite::Error>>::empty());
    proof {
        reveal(Seq::filter);
    }
    assert(texts@ =~= rows@.take(0).filter(keep).map_values(value));
    while i < rows.len()
        invariant
            i <= rows@.len(),
            keep == |row: Result<String, rusqlite::Error>| row is Ok,
            value == |row: Result<String, rusqlite::Error>| row->Ok_0,
            texts@ == rows@.take(i as int).filter(keep).map_values(value),
        decreases rows@.len() - i,
    {
        let ghost before = texts@;
        if let Ok(text) = &rows[i] {
            texts.push(text.clone());
            assert(texts@ =~= before.push(rows@[i as int]->Ok_0));
        }
        proof {
            let seen = rows@.take(i as int);
            assert(rows@.take(i + 1) =~= seen.push(rows@[i as int]));
            seen.lemma_filter_push(rows@[i as int], keep);
            assert(seen.filter(keep).push(rows@[i as int]).map_values(value)
                =~= seen.filter(keep).map_values(value).push(rows@[i as int]->Ok_0));
        }
        i += 1;
    }
    assert(rows@.take(i as int) =~= rows@);
    texts
}

/// Passes over the notes that could not be read.
pub fn readable_memories(rows: &Vec<Result<Memory, rusqlite::Error>>) -> (notes: Vec<Memory>)
    ensures
        notes@ == readable(rows@),
{
    let ghost keep = |row: Result<Memory, rusqlite::Error>| row is Ok;
    let ghost value = |row: Result<Memory, rusqlite::Error>| row->Ok_0;
    let mut notes: Vec<Memory> = Vec::new();
    let mut i: usize = 0;
    assert(rows@.take(0) =~= Seq::<Result<Memory, rusqlite::Error>>::empty());
    proof {
        reveal(Seq::filter);
    }
    assert(notes@ =~= rows@.take(0).filter(keep).map_values(value));
    while i < rows.len()
        invariant
            i <= rows@.len(),
            keep == |row: Result<Memory, rusqlite::Error>| row is Ok,
            value == |row: Result<Memory, rusqlite::Error>| row->Ok_0,
            notes@ == rows@.take(i as int).filter(keep).map_values(value),
        decreases rows@.len() - i,
    {
        let ghost before = notes@;
        if let Ok(note) = &rows[i] {
            notes.push(note.clone());
            assert(notes@ =~= before.push(rows@[i as int]->Ok_0));
        }
        proof {
            let seen = rows@.take(i as int);
            assert(rows@.take(i + 1) =~= seen.push(rows@[i as int]));
            seen.lemma_filter_push(rows@[i as int], keep);
            assert(seen.filter(keep).push(rows@[i as int]).map_values(value)
                =~= seen.filter(keep).map_values(value).push(rows@[i as int]->Ok_0));
        }
        i += 1;
    }
    assert(rows@.take(i as int) =~= rows@);
    notes
}

/// The version that a store reports, from what reading its counter came to:
/// the counter where it was read, and zero where the store has no counter
/// or none that can be read.
pub fn version_or_zero(read: Result<i32, rusqlite::Error>) -> (version: i32)
    ensures
        version == match read {
            Ok(counter) => counter,
            Err(_) => 0i32,
        },
{
    match read {
        Ok(counter) => counter,
        Err(_) => 0,
    }
}

/// Creates a task under the first of the candidate identifiers that can be
/// handed out, and returns that identifier. A malformed parent is refused
/// before the store is read, and so is a malformed dependency where no
/// parent is given.
pub fn create_task_from(
    conn: &Connection,
    candidates: &Vec<String>,
    title: &str,
    description: &str,
    parent: Option<&str>,
    depend: Option<&str>,
) -> (outcome: Result<String, StoreError>)
    ensures
        parent matches Some(p) ==> !valid_id(p@) ==> outcome is Err && outcome->Err_0@
            == (StoreErrorView::InvalidId { id: p@ }),
        depend matches Some(d) ==> parent is None && !valid_id(d@) ==> outcome is Err
            && outcome->Err_0@ == (StoreErrorView::InvalidId { id: d@ }),
        outcome matches Ok(id) ==> {
            &&& valid_id(id@)
            &&& candidates.deep_view().contains(id@)
            &&& parent matches Some(p) ==> valid_id(p@)
            &&& depend matches Some(d) ==> valid_id(d@)
        },
        outcome matches Err(e) ==> e@ is Storage || exists|rows: Seq<TaskView>, time: Seq<char>|
            created(
                rows,
                candidates.deep_view(),
                title@,
                description@,
                opt_str_text(parent),
                opt_str_text(depend),
                time,
            ) == Err::<(Seq<char>, Seq<TaskView>), StoreErrorView>(e@),
{
    let first = match parent {
        Some(p) => Some(p),
        None => depend,
    };
    if let Some(link) = first {
        if let Err(e) = validate_id(link) {
            assert(created(
                Seq::<TaskView>::empty(),
                candidates.deep_view(),
                title@,
                description@,
                opt_str_text(parent),
                opt_str_text(depend),
                Seq::<char>::empty(),
            ) == Err::<(Seq<char>, Seq<TaskView>), StoreErrorView>(e@));
            return Err(e);
        }
    }
    let mut table = load_tasks(conn)?;
    let now = current_time(conn)?;
    let ghost rows = table@;
    let id = table.create_from(candidates, title, description, parent, depend, now.as_str())?;
    proof {
        picked_is_acceptable(ids_of(rows), candidates.deep_view());
        picked_is_a_candidate(ids_of(rows), candidates.deep_view());
    }
    let statement = insert_task_statement(
        id.as_str(),
        title,
        description,
        parent,
        depend,
        now.as_str(),
    );
    run_statement(conn, statement)?;
    Ok(id)
}

/// Creates a task under a freshly allocated identifier and returns the
/// identifier. A malformed parent is refused before the store is read, and
/// so is a malformed dependency where no parent is given.
pub fn create_task(
    conn: &Connection,
    title: &str,
    description: &str,
    parent: Option<&str>,
    depend: Option<&str>,
) -> (outcome: Result<String, StoreError>)
    ensures
        parent matches Some(p) ==> !valid_id(p@) ==> outcome is Err && outcome->Err_0@
            == (StoreErrorView::InvalidId { id: p@ }),
        depend matches Some(d) ==> parent is None && !valid_id(d@) ==> outcome is Err
            && outcome->Err_0@ == (StoreErrorView::InvalidId { id: d@ }),
        outcome matches Ok(id) ==> {
            &&& valid_id(id@)
            &&& parent matches Some(p) ==> valid_id(p@)
            &&& depend matches Some(d) ==> valid_id(d@)
        },
        outcome matches Err(e) ==> e@ is Storage || e@ is IdsExhausted || exists|
            rows: Seq<TaskView>,
        |
            link_error(rows, opt_str_text(parent), opt_str_text(depend)) == Some(e@),
{
    let candidates = draw_candidates(MAX_ATTEMPTS);
    create_task_from(conn, &candidates, title, description, parent, depend)
}

/// Lists tasks, oldest first: pending ones unless a flag says otherwise,
/// and only the children of `parent` where one is given.
pub fn list_tasks(conn: &Connection, inprogress: bool, all: bool, parent: Option<&str>) -> (outcome:
    Result<Vec<TaskSummary>, StoreError>)
    ensures
        parent matches Some(p) ==> !valid_id(p@) ==> outcome is Err && outcome->Err_0@
            == (StoreErrorView::InvalidId { id: p@ }),
        outcome matches Ok(entries) ==> exists|rows: Seq<TaskView>|
            listing_error(rows, opt_str_text(parent)) is None && entries.deep_view() == listing(
                rows,
                inprogress,
                all,
                opt_str_text(parent),
            ),
        outcome matches Ok(entries) ==> forall|k: int|
            0 <= k < entries@.len() ==> {
                &&& status_filter(inprogress, all) matches Some(wanted) ==> (
                #[trigger] entries@[k]).status == wanted
                &&& parent matches Some(p) ==> opt_text(entries@[k].parent_id) == Some(p@)
            },
        outcome matches Err(e) ==> e@ is Storage || exists|rows: Seq<TaskView>|
            listing_error(rows, opt_str_text(parent)) == Some(e@),
{
    if let Some(p) = parent {
        validate_id(p)?;
    }
    let table = load_tasks(conn)?;
    let outcome = table.list(inprogress, all, parent);
    proof {
        if let Ok(entries) = &outcome {
            listing_is_in_creation_order(table@, inprogress, all, opt_str_text(parent));
            let keep = admits(status_filter(inprogress, all), opt_str_text(parent));
            let shown = listing(table@, inprogress, all, opt_str_text(parent));
            let at = choose|at: Seq<int>| lists(table@, keep, shown, at);
            assert forall|k: int| 0 <= k < entries@.len() implies {
                &&& status_filter(inprogress, all) matches Some(wanted) ==> (
                #[trigger] entries@[k]).status == wanted
                &&& parent matches Some(p) ==> opt_text(entries@[k].parent_id) == Some(p@)
            } by {
                assert(entries.deep_view()[k] == entries@[k]@);
                assert(shown[k] == summary_of(table@[at[k]]));
                assert(keep(table@[at[k]]));
            }
        }
    }
    outcome
}

/// The task with this identifier, in full.
pub fn get_task(conn: &Connection, id: &str) -> (outcome: Result<Task, StoreError>)
    ensures
        !valid_id(id@) ==> outcome is Err && outcome->Err_0@ == (StoreErrorView::InvalidId {
            id: id@,
        }),
        outcome matches Ok(task) ==> task.id@ == id@ && exists|rows: Seq<TaskView>|
            fetched(rows, id@) == Ok::<TaskView, StoreErrorView>(task@),
        outcome matches Err(e) ==> e@ is Storage || exists|rows: Seq<TaskView>|
            fetched(rows, id@) == Err::<TaskView, StoreErrorView>(e@),
{
    validate_id(id)?;
    let table = load_tasks(conn)?;
    let outcome = table.get(id);
    proof {
        if outcome is Ok {
            position_is_first(table@, id@);
        }
    }
    outcome
}

/// Replaces the description of a task.
pub fn update_task(conn: &Connection, id: &str, description: &str) -> (outcome: Result<
    (),
    StoreError,
>)
    ensures
        !valid_id(id@) ==> outcome is Err && outcome->Err_0@ == (StoreErrorView::InvalidId {
            id: id@,
        }),
        outcome is Ok ==> valid_id(id@) && exists|rows: Seq<TaskView>| updated(rows, id@, description@) is Ok,
        outcome matches Err(e) ==> e@ is Storage || exists|rows: Seq<TaskView>|
            updated(rows, id@, description@) == Err::<Seq<TaskView>, StoreErrorView>(e@),
{
    validate_id(id)?;
    let mut table = load_tasks(conn)?;
    table.update(id, description)?;
    run_statement(conn, description_statement(id, description))
}

/// Starts a pending task.
pub fn start_task(conn: &Connection, id: &str) -> (outcome: Result<(), StoreError>)
    ensures
        !valid_id(id@) ==> outcome is Err && outcome->Err_0@ == (StoreErrorView::InvalidId {
            id: id@,
        }),
        outcome is Ok ==> valid_id(id@) && exists|rows: Seq<TaskView>| started(rows, id@) is Ok,
        outcome matches Err(e) ==> e@ is Storage || exists|rows: Seq<TaskView>|
            started(rows, id@) == Err::<Seq<TaskView>, StoreErrorView>(e@),
{
    validate_id(id)?;
    let mut table = load_tasks(conn)?;
    table.start(id)?;
    run_statement(conn, start_statement(id))
}

/// Completes a task.
pub fn complete_task(conn: &Connection, id: &str) -> (outcome: Result<(), StoreError>)
    ensures
        !valid_id(id@) ==> outcome is Err && outcome->Err_0@ == (StoreErrorView::InvalidId {
            id: id@,
        }),
        outcome is Ok ==> valid_id(id@) && exists|rows: Seq<TaskView>| completed(rows, id@) is Ok,
        outcome matches Err(e) ==> e@ is Storage || exists|rows: Seq<TaskView>|
            completed(rows, id@) == Err::<Seq<TaskView>, StoreErrorView>(e@),
{
    validate_id(id)?;
    let mut table = load_tasks(conn)?;
    table.complete(id)?;
    run_statement(conn, done_statement(id))
}

/// Removes a task that nothing stands on.
pub fn remove_task(conn: &Connection, id: &str) -> (outcome: Result<(), StoreError>)
    ensures
        !valid_id(id@) ==> outcome is Err && outcome->Err_0@ == (StoreErrorView::InvalidId {
            id: id@,
        }),
        outcome is Ok ==> valid_id(id@) && exists|rows: Seq<TaskView>| removed(rows, id@) is Ok,
        outcome matches Err(e) ==> e@ is Storage || exists|rows: Seq<TaskView>|
            removed(rows, id@) == Err::<Seq<TaskView>, StoreErrorView>(e@),
{
    validate_id(id)?;
    let mut table = load_tasks(conn)?;
    table.remove(id)?;
    run_statement(conn, delete_task_statement(id))
}

/// The identifiers of the tasks that are not done.
pub fn get_task_ids(conn: &Connection) -> (outcome: Result<Vec<String>, StoreError>)
    ensures
        outcome matches Ok(ids) ==> exists|rows: Seq<TaskView>| ids.deep_view() == open_ids(rows),
        outcome matches Err(e) ==> e@ is Storage,
{
    let table = load_tasks(conn)?;
    Ok(table.open_ids())
}

/// Stores a note under the first of the candidate identifiers that can be
/// handed out, and returns that identifier.
pub fn create_memory_from(
    conn: &Connection,
    candidates: &Vec<String>,
    content: &str,
    tags: Option<&str>,
) -> (outcome: Result<String, StoreError>)
    ensures
        outcome matches Ok(id) ==> valid_id(id@) && candidates.deep_view().contains(id@),
        outcome matches Err(e) ==> e@ is Storage || e@ is IdsExhausted,
{
    let mut table = load_memories(conn)?;
    let now = current_time(conn)?;
    let ghost rows = table@;
    let id = table.create_from(candidates, content, tags, now.as_str())?;
    proof {
        picked_is_acceptable(memory_ids(rows), candidates.deep_view());
        picked_is_a_candidate(memory_ids(rows), candidates.deep_view());
    }
    run_statement(conn, insert_memory_statement(id.as_str(), content, tags, now.as_str()))?;
    Ok(id)
}

/// Stores a note under a freshly allocated identifier and returns the
/// identifier.
pub fn create_memory(conn: &Connection, content: &str, tags: Option<&str>) -> (outcome: Result<
    String,
    StoreError,
>)
    ensures
        outcome matches Ok(id) ==> valid_id(id@),
        outcome matches Err(e) ==> e@ is Storage || e@ is IdsExhausted,
{
    let candidates = draw_candidates(MAX_ATTEMPTS);
    create_memory_from(conn, &candidates, content, tags)
}

/// Lists notes, newest first: those that carry the tag where one is given,
/// and the first `last` of them where a bound is given.
pub fn list_memories(conn: &Connection, tag: Option<&str>, last: Option<usize>) -> (outcome: Result<
    Vec<Memory>,
    StoreError,
>)
    ensures
        outcome matches Ok(entries) ==> exists|rows: Seq<MemoryView>|
            entries.deep_view() == memory_listing(rows, opt_str_text(tag), last),
        outcome matches Ok(entries) ==> {
            &&& last matches Some(n) ==> entries@.len() <= n
            &&& forall|k: int|
                0 <= k < entries@.len() ==> tagged((#[trigger] entries@[k])@, opt_str_text(tag))
        },
        outcome matches Err(e) ==> e@ is Storage,
{
    let table = load_memories(conn)?;
    let entries = table.list(tag, last);
    proof {
        let tag = opt_str_text(tag);
        listing_is_newest_first(table@, tag);
        let full = memory_listing(table@, tag, None);
        let at = choose|at: Seq<int>| selects(table@.reverse(), carries(tag), full, at);
        if let Some(n) = last {
            bound_cuts_after_ordering(table@, tag, n);
        }
        assert forall|k: int| 0 <= k < entries@.len() implies tagged(
            (#[trigger] entries@[k])@,
            tag,
        ) by {
            assert(entries.deep_view()[k] == entries@[k]@);
            assert(entries.deep_view()[k] == full[k]);
            assert(full[k] == table@.reverse()[at[k]]);
            assert(carries(tag)(table@.reverse()[at[k]]));
        }
    }
    Ok(entries)
}

/// The note with this identifier.
pub fn get_memory(conn: &Connection, id: &str) -> (outcome: Result<Memory, StoreError>)
    ensures
        !valid_id(id@) ==> outcome is Err && outcome->Err_0@ == (StoreErrorView::InvalidId {
            id: id@,
        }),
        outcome matches Ok(note) ==> note.id@ == id@ && exists|rows: Seq<MemoryView>|
            fetched_memory(rows, id@) == Ok::<MemoryView, StoreErrorView>(note@),
        outcome matches Err(e) ==> e@ is Storage || exists|rows: Seq<MemoryView>|
            fetched_memory(rows, id@) == Err::<MemoryView, StoreErrorView>(e@),
{
    validate_id(id)?;
    let table = load_memories(conn)?;
    let outcome = table.get(id);
    proof {
        if outcome is Ok {
            memory_position_is_first(table@, id@);
        }
    }
    outcome
}

/// The notes whose content contains the query, newest first.
pub fn search_memories(conn: &Connection, query: &str) -> (outcome: Result<
    Vec<Memory>,
    StoreError,
>)
    ensures
        outcome matches Ok(entries) ==> exists|rows: Seq<MemoryView>|
            entries.deep_view() == search_result(rows, query@),
        outcome matches Ok(entries) ==> forall|k: int|
            0 <= k < entries@.len() ==> contains_text((#[trigger] entries@[k]).content@, query@),
        outcome matches Err(e) ==> e@ is Storage,
{
    let table = load_memories(conn)?;
    let entries = table.search(query);
    proof {
        search_is_newest_first(table@, query@);
        let found = search_result(table@, query@);
        let at = choose|at: Seq<int>| selects(table@.reverse(), mentions(query@), found, at);
        assert forall|k: int| 0 <= k < entries@.len() implies contains_text(
            (#[trigger] entries@[k]).content@,
            query@,
        ) by {
            assert(entries.deep_view()[k] == entries@[k]@);
            assert(mentions(query@)(table@.reverse()[at[k]]));
        }
    }
    Ok(entries)
}

/// Removes a note.
pub fn remove_memory(conn: &Connection, id: &str) -> (outcome: Result<(), StoreError>)
    ensures
        !valid_id(id@) ==> outcome is Err && outcome->Err_0@ == (StoreErrorView::InvalidId {
            id: id@,
        }),
        outcome is Ok ==> valid_id(id@) && exists|rows: Seq<MemoryView>|
            removed_memory(rows, id@) is Ok,
        outcome matches Err(e) ==> e@ is Storage || exists|rows: Seq<MemoryView>|
            removed_memory(rows, id@) == Err::<Seq<MemoryView>, StoreErrorView>(e@),
{
    validate_id(id)?;
    let mut table = load_memories(conn)?;
    table.remove(id)?;
    run_statement(conn, delete_memory_statement(id))
}

} // verus!
