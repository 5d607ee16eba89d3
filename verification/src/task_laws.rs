//! What follows from the rules of the task module: when removal, start and
//! completion are refused, what a default listing shows, and what every
//! command preserves.

use vstd::prelude::*;
use crate::error::StoreErrorView;
use crate::ident::{acceptable, picked, picked_is_acceptable, valid_id};
use crate::status::TaskStatus;
use crate::selection::{filter_agrees, filter_finds, filter_selects, selects};
use crate::task::{
    completed, fetched, first_is_position, has_task, ids_of, is_first, link_error, listed,
    listing, new_task, position, position_is_first, removed, started, status_filter, summary_of,
    updated, TaskSummaryView, TaskView,
};
use crate::task_table::{created, has_task_is_contains};

verus! {

/// No two rows share an identifier, and every identifier is well formed.
pub open spec fn well_formed(rows: Seq<TaskView>) -> bool {
    &&& forall|i: int| 0 <= i < rows.len() ==> valid_id((#[trigger] rows[i]).id)
    &&& forall|i: int, j: int|
        0 <= i < j < rows.len() ==> (#[trigger] rows[i]).id != (#[trigger] rows[j]).id
}

/// Every parent exists, and every dependency exists unless the task that
/// names it is done.
pub open spec fn links_sound(rows: Seq<TaskView>) -> bool {
    forall|i: int|
        0 <= i < rows.len() ==> {
            &&& (#[trigger] rows[i]).parent_id matches Some(p) ==> has_task(rows, p)
            &&& rows[i].depend_id matches Some(d) ==> has_task(rows, d) || rows[i].status
                == TaskStatus::Done
        }
}

/// No task of `before` that is still in `after` has moved to an earlier
/// status.
pub open spec fn never_regresses(before: Seq<TaskView>, after: Seq<TaskView>) -> bool {
    forall|i: int, j: int|
        0 <= i < before.len() && 0 <= j < after.len() && (#[trigger] before[i]).id == (
        #[trigger] after[j]).id ==> before[i].status.code() <= after[j].status.code()
}

/// The commands that change the task table.
pub enum TaskCommand {
    Create {
        candidates: Seq<Seq<char>>,
        title: Seq<char>,
        description: Seq<char>,
        parent: Option<Seq<char>>,
        depend: Option<Seq<char>>,
        created_at: Seq<char>,
    },
    Update { id: Seq<char>, description: Seq<char> },
    Start { id: Seq<char> },
    Complete { id: Seq<char> },
    Remove { id: Seq<char> },
}

/// The rows after a command, or why it was refused.
pub open spec fn applied(rows: Seq<TaskView>, command: TaskCommand) -> Result<
    Seq<TaskView>,
    StoreErrorView,
> {
    match command {
        TaskCommand::Create {
            candidates,
            title,
            description,
            parent,
            depend,
            created_at,
        } => match created(rows, candidates, title, description, parent, depend, created_at) {
            Ok((_, after)) => Ok(after),
            Err(e) => Err(e),
        },
        TaskCommand::Update { id, description } => updated(rows, id, description),
        TaskCommand::Start { id } => started(rows, id),
        TaskCommand::Complete { id } => completed(rows, id),
        TaskCommand::Remove { id } => removed(rows, id),
    }
}

/// Removing an existing task is refused exactly while some task has it as
/// parent or some unfinished task depends on it. Otherwise the task's row
/// leaves the table and every other row stays as it was.
pub proof fn removal_rule(rows: Seq<TaskView>, id: Seq<char>)
    requires
        valid_id(id),
        has_task(rows, id),
    ensures
        removed(rows, id) is Err <==> (exists|i: int|
            0 <= i < rows.len() && (#[trigger] rows[i]).parent_id == Some(id)) || (exists|i: int|
            0 <= i < rows.len() && (#[trigger] rows[i]).depend_id == Some(id) && rows[i].status
                != TaskStatus::Done),
        removed(rows, id) matches Ok(after) ==> after == rows.remove(position(rows, id)),
        removed(rows, id) matches Err(e) ==> e is ActiveDependents || e is HasChildren,
{
    filter_finds(rows, |task: TaskView| task.parent_id == Some(id));
    filter_finds(
        rows,
        |task: TaskView| task.depend_id == Some(id) && task.status != TaskStatus::Done,
    );
}

/// Starting an existing task succeeds only from pending and leaves it in
/// progress; a second start is refused as already in progress, and a start
/// of a finished task as already done.
pub proof fn start_rule(rows: Seq<TaskView>, id: Seq<char>)
    requires
        valid_id(id),
        has_task(rows, id),
    ensures
        started(rows, id) is Ok <==> rows[position(rows, id)].status == TaskStatus::Pending,
        rows[position(rows, id)].status == TaskStatus::InProgress ==> started(rows, id) == Err::<
            Seq<TaskView>,
            StoreErrorView,
        >(StoreErrorView::AlreadyInProgress { id }),
        rows[position(rows, id)].status == TaskStatus::Done ==> started(rows, id) == Err::<
            Seq<TaskView>,
            StoreErrorView,
        >(StoreErrorView::AlreadyDone { id }),
        started(rows, id) matches Ok(after) ==> {
            &&& has_task(after, id)
            &&& after[position(after, id)].status == TaskStatus::InProgress
            &&& started(after, id) == Err::<Seq<TaskView>, StoreErrorView>(
                StoreErrorView::AlreadyInProgress { id },
            )
        },
{
    position_is_first(rows, id);
    let at = position(rows, id);
    if let Ok(after) = started(rows, id) {
        assert(is_first(after, id, at)) by {
            assert forall|j: int| 0 <= j < at implies (#[trigger] after[j]).id != id by {
                assert(rows[j].id != id);
            }
        }
        first_is_position(after, id, at);
    }
}

/// Completing an existing task that is not done is refused exactly when the
/// task names a dependency that exists and is not done, and the refusal
/// names that dependency. Otherwise the task is done afterwards, whether it
/// was pending or in progress.
pub proof fn completion_rule(rows: Seq<TaskView>, id: Seq<char>)
    requires
        valid_id(id),
        has_task(rows, id),
        rows[position(rows, id)].status != TaskStatus::Done,
    ensures
        match rows[position(rows, id)].depend_id {
            Some(d) if has_task(rows, d) && rows[position(rows, d)].status != TaskStatus::Done =>
                completed(rows, id) == Err::<Seq<TaskView>, StoreErrorView>(
                    StoreErrorView::DependencyNotDone { id: d },
                ),
            _ => completed(rows, id) is Ok,
        },
        completed(rows, id) matches Ok(after) ==> {
            &&& has_task(after, id)
            &&& after[position(after, id)].status == TaskStatus::Done
            &&& after == rows.update(
                position(rows, id),
                TaskView { status: TaskStatus::Done, ..rows[position(rows, id)] },
            )
        },
{
    position_is_first(rows, id);
    let at = position(rows, id);
    if let Ok(after) = completed(rows, id) {
        assert(is_first(after, id, at)) by {
            assert forall|j: int| 0 <= j < at implies (#[trigger] after[j]).id != id by {
                assert(rows[j].id != id);
            }
        }
        first_is_position(after, id, at);
    }
}

/// A task whose dependency was removed can be completed: a dependency that
/// names no row counts as satisfied.
pub proof fn missing_dependency_is_satisfied(rows: Seq<TaskView>, id: Seq<char>)
    requires
        valid_id(id),
        has_task(rows, id),
        rows[position(rows, id)].status != TaskStatus::Done,
        rows[position(rows, id)].depend_id matches Some(d) && !has_task(rows, d),
    ensures
        completed(rows, id) is Ok,
{
}

/// The test that a listing puts to a task.
pub open spec fn admits(status: Option<TaskStatus>, parent: Option<Seq<char>>) -> spec_fn(
    TaskView,
) -> bool {
    |task: TaskView| listed(task, status, parent)
}

/// The test for a pending task.
pub open spec fn is_pending() -> spec_fn(TaskView) -> bool {
    |task: TaskView| task.status == TaskStatus::Pending
}

/// `shown` lists exactly the rows that `keep` admits, each once and in the
/// order of the rows; `at` gives the row of every entry.
pub open spec fn lists(
    rows: Seq<TaskView>,
    keep: spec_fn(TaskView) -> bool,
    shown: Seq<TaskSummaryView>,
    at: Seq<int>,
) -> bool {
    &&& selects(rows, keep, rows.filter(keep), at)
    &&& shown.len() == at.len()
    &&& forall|k: int| 0 <= k < shown.len() ==> #[trigger] shown[k] == summary_of(rows[at[k]])
}

/// A listing shows exactly the tasks that its restrictions admit, each once
/// and oldest first: the rows stand in creation order.
pub proof fn listing_is_in_creation_order(
    rows: Seq<TaskView>,
    inprogress: bool,
    all: bool,
    parent: Option<Seq<char>>,
)
    ensures
        exists|at: Seq<int>|
            lists(
                rows,
                admits(status_filter(inprogress, all), parent),
                listing(rows, inprogress, all, parent),
                at,
            ),
{
    let keep = admits(status_filter(inprogress, all), parent);
    let shown = listing(rows, inprogress, all, parent);
    filter_agrees(
        rows,
        |task: TaskView| listed(task, status_filter(inprogress, all), parent),
        keep,
    );
    filter_selects(rows, keep);
    let at = choose|at: Seq<int>| selects(rows, keep, rows.filter(keep), at);
    assert forall|k: int| 0 <= k < shown.len() implies #[trigger] shown[k] == summary_of(
        rows[at[k]],
    ) by {
        assert(rows.filter(keep)[k] == rows[at[k]]);
    }
    assert(lists(rows, keep, shown, at));
}

/// A listing without restrictions shows exactly the pending tasks, each
/// once and oldest first.
pub proof fn default_listing_is_pending(rows: Seq<TaskView>)
    ensures
        listing(rows, false, false, None) == rows.filter(is_pending()).map_values(
            |task: TaskView| summary_of(task),
        ),
        exists|at: Seq<int>| lists(rows, is_pending(), listing(rows, false, false, None), at),
{
    let shown = listing(rows, false, false, None);
    filter_agrees(
        rows,
        |task: TaskView| listed(task, status_filter(false, false), None),
        is_pending(),
    );
    assert(shown =~= rows.filter(is_pending()).map_values(|task: TaskView| summary_of(task)));
    filter_selects(rows, is_pending());
    let at = choose|at: Seq<int>| selects(rows, is_pending(), rows.filter(is_pending()), at);
    assert forall|k: int| 0 <= k < shown.len() implies #[trigger] shown[k] == summary_of(
        rows[at[k]],
    ) by {
        assert(rows.filter(is_pending())[k] == rows[at[k]]);
    }
    assert(lists(rows, is_pending(), shown, at));
}

/// A task that was removed is not found again, and no other task is lost.
pub proof fn removed_task_is_gone(rows: Seq<TaskView>, id: Seq<char>)
    requires
        well_formed(rows),
    ensures
        removed(rows, id) matches Ok(after) ==> {
            &&& !has_task(after, id)
            &&& fetched(after, id) == Err::<TaskView, StoreErrorView>(
                StoreErrorView::TaskNotFound { id },
            )
            &&& forall|other: Seq<char>| other != id && has_task(rows, other) ==> has_task(after, other)
        },
{
    if let Ok(after) = removed(rows, id) {
        position_is_first(rows, id);
        let at = position(rows, id);
        if has_task(after, id) {
            let j = choose|j: int| 0 <= j < after.len() && (#[trigger] after[j]).id == id;
            let from = if j < at {
                j
            } else {
                j + 1
            };
            assert(after[j] == rows[from]);
            assert(rows[from].id == rows[at].id);
        }
        assert forall|other: Seq<char>| other != id && has_task(rows, other) implies has_task(
            after,
            other,
        ) by {
            let k = choose|k: int| 0 <= k < rows.len() && (#[trigger] rows[k]).id == other;
            let to = if k < at {
                k
            } else {
                k - 1
            };
            assert(after[to] == rows[k]);
        }
    }
}

/// A task that was created is found under the identifier that creation
/// returned, pending, with the texts, the links and the creation time it was
/// created with.
pub proof fn created_task_is_found(
    rows: Seq<TaskView>,
    candidates: Seq<Seq<char>>,
    title: Seq<char>,
    description: Seq<char>,
    parent: Option<Seq<char>>,
    depend: Option<Seq<char>>,
    created_at: Seq<char>,
)
    ensures
        created(rows, candidates, title, description, parent, depend, created_at) matches Ok((id, after))
            ==> {
            &&& valid_id(id)
            &&& !has_task(rows, id)
            &&& fetched(after, id) == Ok::<TaskView, StoreErrorView>(
                new_task(id, title, description, parent, depend, created_at),
            )
        },
{
    if let Ok((id, after)) = created(rows, candidates, title, description, parent, depend, created_at) {
        picked_is_acceptable(ids_of(rows), candidates);
        has_task_is_contains(rows, id);
        let last = rows.len() as int;
        assert(is_first(after, id, last)) by {
            assert forall|j: int| 0 <= j < last implies (#[trigger] after[j]).id != id by {
                assert(after[j] == rows[j]);
            }
        }
        first_is_position(after, id, last);
    }
}

/// The rows that a successful command leaves: for every command but removal
/// the old rows keep their places and identifiers; removal takes one row out.
proof fn shape_after(rows: Seq<TaskView>, command: TaskCommand)
    requires
        applied(rows, command) is Ok,
    ensures
        match command {
            TaskCommand::Create { candidates, title, description, parent, depend, created_at } => {
                &&& link_error(rows, parent, depend) is None
                &&& picked(ids_of(rows), candidates) matches Some(id) && acceptable(
                    ids_of(rows),
                    id,
                ) && applied(rows, command)->Ok_0 == rows.push(
                    new_task(id, title, description, parent, depend, created_at),
                )
            },
            TaskCommand::Remove { id } => {
                &&& is_first(rows, id, position(rows, id))
                &&& applied(rows, command)->Ok_0 == rows.remove(position(rows, id))
                &&& forall|i: int|
                    0 <= i < rows.len() ==> (#[trigger] rows[i]).parent_id != Some(id)
                &&& forall|i: int|
                    0 <= i < rows.len() && (#[trigger] rows[i]).depend_id == Some(id)
                        ==> rows[i].status == TaskStatus::Done
            },
            _ => {
                let after = applied(rows, command)->Ok_0;
                &&& after.len() == rows.len()
                &&& forall|i: int|
                    0 <= i < rows.len() ==> {
                        &&& (#[trigger] after[i]).id == rows[i].id
                        &&& after[i].title == rows[i].title
                        &&& after[i].parent_id == rows[i].parent_id
                        &&& after[i].depend_id == rows[i].depend_id
                        &&& after[i].created_at == rows[i].created_at
                        &&& rows[i].status.code() <= after[i].status.code()
                        &&& command is Update || after[i].description == rows[i].description
                    }
            },
        },
{
    match command {
        TaskCommand::Create { candidates, title, description, parent, depend, created_at } => {
            picked_is_acceptable(ids_of(rows), candidates);
        },
        TaskCommand::Update { id, description } => {
            position_is_first(rows, id);
        },
        TaskCommand::Start { id } => {
            position_is_first(rows, id);
        },
        TaskCommand::Complete { id } => {
            position_is_first(rows, id);
        },
        TaskCommand::Remove { id } => {
            position_is_first(rows, id);
            filter_finds(rows, |task: TaskView| task.parent_id == Some(id));
            filter_finds(
                rows,
                |task: TaskView| task.depend_id == Some(id) && task.status != TaskStatus::Done,
            );
        },
    }
}

/// Every command keeps identifiers well formed and distinct.
pub proof fn command_keeps_well_formed(rows: Seq<TaskView>, command: TaskCommand)
    requires
        well_formed(rows),
    ensures
        applied(rows, command) matches Ok(after) ==> well_formed(after),
{
    if let Ok(after) = applied(rows, command) {
        shape_after(rows, command);
        match command {
            TaskCommand::Create { candidates, title, description, parent, depend, created_at } => {
                let id = picked(ids_of(rows), candidates)->0;
                assert forall|i: int, j: int| 0 <= i < j < after.len() implies (
                #[trigger] after[i]).id != (#[trigger] after[j]).id by {
                    if j == rows.len() {
                        assert(ids_of(rows)[i] == rows[i].id);
                    }
                }
            },
            TaskCommand::Remove { id } => {
                let at = position(rows, id);
                assert forall|i: int, j: int| 0 <= i < j < after.len() implies (
                #[trigger] after[i]).id != (#[trigger] after[j]).id by {
                    let from_i = if i < at {
                        i
                    } else {
                        i + 1
                    };
                    let from_j = if j < at {
                        j
                    } else {
                        j + 1
                    };
                    assert(after[i] == rows[from_i]);
                    assert(after[j] == rows[from_j]);
                }
                assert forall|i: int| 0 <= i < after.len() implies valid_id(
                    (#[trigger] after[i]).id,
                ) by {
                    let from_i = if i < at {
                        i
                    } else {
                        i + 1
                    };
                    assert(after[i] == rows[from_i]);
                }
            },
            _ => {
                assert forall|i: int, j: int| 0 <= i < j < after.len() implies (
                #[trigger] after[i]).id != (#[trigger] after[j]).id by {
                    assert(rows[i].id != rows[j].id);
                }
            },
        }
    }
}

/// Every command keeps the links sound: afterwards every parent still
/// exists, and a dependency is missing only where the task that names it is
/// done.
pub proof fn command_keeps_links_sound(rows: Seq<TaskView>, command: TaskCommand)
    requires
        links_sound(rows),
    ensures
        applied(rows, command) matches Ok(after) ==> links_sound(after),
{
    if let Ok(after) = applied(rows, command) {
        shape_after(rows, command);
        match command {
            TaskCommand::Create { candidates, title, description, parent, depend, created_at } => {
                assert forall|target: Seq<char>| has_task(rows, target) implies has_task(
                    after,
                    target,
                ) by {
                    let k = choose|k: int| 0 <= k < rows.len() && (#[trigger] rows[k]).id == target;
                    assert(after[k].id == target);
                }
                assert forall|i: int| 0 <= i < after.len() implies {
                    &&& (#[trigger] after[i]).parent_id matches Some(p) ==> has_task(after, p)
                    &&& after[i].depend_id matches Some(d) ==> has_task(after, d)
                        || after[i].status == TaskStatus::Done
                } by {
                    if i < rows.len() {
                        assert(after[i] == rows[i]);
                    }
                }
            },
            TaskCommand::Remove { id } => {
                let at = position(rows, id);
                assert forall|target: Seq<char>|
                    has_task(rows, target) && target != id implies has_task(after, target) by {
                    let k = choose|k: int| 0 <= k < rows.len() && (#[trigger] rows[k]).id == target;
                    let to = if k < at {
                        k
                    } else {
                        k - 1
                    };
                    assert(after[to] == rows[k]);
                }
                assert forall|i: int| 0 <= i < after.len() implies {
                    &&& (#[trigger] after[i]).parent_id matches Some(p) ==> has_task(after, p)
                    &&& after[i].depend_id matches Some(d) ==> has_task(after, d)
                        || after[i].status == TaskStatus::Done
                } by {
                    let from_i = if i < at {
                        i
                    } else {
                        i + 1
                    };
                    assert(after[i] == rows[from_i]);
                }
            },
            _ => {
                assert forall|target: Seq<char>| has_task(rows, target) implies has_task(
                    after,
                    target,
                ) by {
                    let k = choose|k: int| 0 <= k < rows.len() && (#[trigger] rows[k]).id == target;
                    assert(after[k].id == target);
                }
                assert forall|i: int| 0 <= i < after.len() implies {
                    &&& (#[trigger] after[i]).parent_id matches Some(p) ==> has_task(after, p)
                    &&& after[i].depend_id matches Some(d) ==> has_task(after, d)
                        || after[i].status == TaskStatus::Done
                } by {
                    assert(after[i].id == rows[i].id);
                    assert(rows[i].status.code() <= after[i].status.code());
                }
            },
        }
    }
}

/// What a task was created with stays: no command changes the title, the
/// parent, the dependency or the creation time of a task, and only an
/// update changes a description.
pub open spec fn keeps_what_was_created(
    before: Seq<TaskView>,
    after: Seq<TaskView>,
    command: TaskCommand,
) -> bool {
    forall|i: int, j: int|
        0 <= i < before.len() && 0 <= j < after.len() && (#[trigger] before[i]).id == (
        #[trigger] after[j]).id ==> {
            &&& after[j].title == before[i].title
            &&& after[j].parent_id == before[i].parent_id
            &&& after[j].depend_id == before[i].depend_id
            &&& after[j].created_at == before[i].created_at
            &&& command is Update || after[j].description == before[i].description
        }
}

/// Links are set only at creation, and the creation time never changes.
pub proof fn command_keeps_what_was_created(rows: Seq<TaskView>, command: TaskCommand)
    requires
        well_formed(rows),
    ensures
        applied(rows, command) matches Ok(after) ==> keeps_what_was_created(rows, after, command),
{
    if let Ok(after) = applied(rows, command) {
        shape_after(rows, command);
        match command {
            TaskCommand::Create { candidates, title, description, parent, depend, created_at } => {
                assert forall|i: int, j: int|
                    0 <= i < rows.len() && 0 <= j < after.len() && (#[trigger] rows[i]).id == (
                    #[trigger] after[j]).id implies after[j].title == rows[i].title
                    && after[j].parent_id == rows[i].parent_id && after[j].depend_id
                    == rows[i].depend_id && after[j].created_at == rows[i].created_at
                    && after[j].description == rows[i].description by {
                    if j == rows.len() {
                        assert(ids_of(rows)[i] == rows[i].id);
                    } else {
                        assert(after[j] == rows[j]);
                        assert(i == j);
                    }
                }
            },
            TaskCommand::Remove { id } => {
                let at = position(rows, id);
                assert forall|i: int, j: int|
                    0 <= i < rows.len() && 0 <= j < after.len() && (#[trigger] rows[i]).id == (
                    #[trigger] after[j]).id implies after[j].title == rows[i].title
                    && after[j].parent_id == rows[i].parent_id && after[j].depend_id
                    == rows[i].depend_id && after[j].created_at == rows[i].created_at
                    && after[j].description == rows[i].description by {
                    let from_j = if j < at {
                        j
                    } else {
                        j + 1
                    };
                    assert(after[j] == rows[from_j]);
                    assert(i == from_j);
                }
            },
            _ => {
                assert forall|i: int, j: int|
                    0 <= i < rows.len() && 0 <= j < after.len() && (#[trigger] rows[i]).id == (
                    #[trigger] after[j]).id implies after[j].title == rows[i].title
                    && after[j].parent_id == rows[i].parent_id && after[j].depend_id
                    == rows[i].depend_id && after[j].created_at == rows[i].created_at && (
                command is Update || after[j].description == rows[i].description) by {
                    assert(after[j].id == rows[j].id);
                    assert(i == j);
                }
            },
        }
    }
}

/// Status only advances: no command moves a task to an earlier status.
pub proof fn command_never_regresses(rows: Seq<TaskView>, command: TaskCommand)
    requires
        well_formed(rows),
    ensures
        applied(rows, command) matches Ok(after) ==> never_regresses(rows, after),
{
    if let Ok(after) = applied(rows, command) {
        shape_after(rows, command);
        match command {
            TaskCommand::Create { candidates, title, description, parent, depend, created_at } => {
                assert forall|i: int, j: int|
                    0 <= i < rows.len() && 0 <= j < after.len() && (#[trigger] rows[i]).id == (
                    #[trigger] after[j]).id implies rows[i].status.code()
                    <= after[j].status.code() by {
                    if j == rows.len() {
                        assert(ids_of(rows)[i] == rows[i].id);
                    } else {
                        assert(after[j] == rows[j]);
                        assert(i == j);
                    }
                }
            },
            TaskCommand::Remove { id } => {
                let at = position(rows, id);
                assert forall|i: int, j: int|
                    0 <= i < rows.len() && 0 <= j < after.len() && (#[trigger] rows[i]).id == (
                    #[trigger] after[j]).id implies rows[i].status.code()
                    <= after[j].status.code() by {
                    let from_j = if j < at {
                        j
                    } else {
                        j + 1
                    };
                    assert(after[j] == rows[from_j]);
                    assert(i == from_j);
                }
            },
            _ => {
                assert forall|i: int, j: int|
                    0 <= i < rows.len() && 0 <= j < after.len() && (#[trigger] rows[i]).id == (
                    #[trigger] after[j]).id implies rows[i].status.code()
                    <= after[j].status.code() by {
                    assert(after[j].id == rows[j].id);
                    assert(i == j);
                }
            },
        }
    }
}

/// A refused command gives one of the reasons that belong to it.
pub proof fn refusal_kinds(rows: Seq<TaskView>, command: TaskCommand)
    ensures
        applied(rows, command) matches Err(e) ==> match command {
            TaskCommand::Create { .. } => e is InvalidId || e is MissingParent
                || e is MissingDependency || e is IdsExhausted,
            TaskCommand::Update { .. } => e is InvalidId || e is TaskNotFound,
            TaskCommand::Start { .. } => e is InvalidId || e is TaskNotFound
                || e is AlreadyInProgress || e is AlreadyDone,
            TaskCommand::Complete { .. } => e is InvalidId || e is TaskNotFound || e is AlreadyDone
                || e is DependencyNotDone,
            TaskCommand::Remove { .. } => e is InvalidId || e is TaskNotFound
                || e is ActiveDependents || e is HasChildren,
        },
{
}

} // verus!
