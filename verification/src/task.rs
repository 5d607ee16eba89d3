//! Tasks and the rules between them, as a table of rows in creation order.
//!
//! The rules are stated once, as functions on the sequence of rows that a
//! table denotes; every operation of [`TaskTable`] is proved to compute
//! exactly what those functions say.

use vstd::prelude::*;
use vstd::string::*;
use crate::error::StoreErrorView;
use crate::ident::valid_id;
use crate::status::TaskStatus;
use crate::text::{opt_str_text, opt_text};

verus! {

/// A unit of trackable work.
#[derive(Debug, PartialEq, Eq)]
pub struct Task {
    pub id: String,
    pub title: String,
    pub description: String,
    pub status: TaskStatus,
    pub parent_id: Option<String>,
    pub depend_id: Option<String>,
    pub created_at: Option<String>,
}

/// A task as it appears in a listing: everything but the description and the
/// creation time.
#[derive(Debug, PartialEq, Eq)]
pub struct TaskSummary {
    pub id: String,
    pub title: String,
    pub status: TaskStatus,
    pub parent_id: Option<String>,
    pub depend_id: Option<String>,
}

/// A task as a mathematical value.
pub struct TaskView {
    pub id: Seq<char>,
    pub title: Seq<char>,
    pub description: Seq<char>,
    pub status: TaskStatus,
    pub parent_id: Option<Seq<char>>,
    pub depend_id: Option<Seq<char>>,
    pub created_at: Option<Seq<char>>,
}

/// A listing entry as a mathematical value.
pub struct TaskSummaryView {
    pub id: Seq<char>,
    pub title: Seq<char>,
    pub status: TaskStatus,
    pub parent_id: Option<Seq<char>>,
    pub depend_id: Option<Seq<char>>,
}

impl View for Task {
    type V = TaskView;

    open spec fn view(&self) -> TaskView {
        TaskView {
            id: self.id@,
            title: self.title@,
            description: self.description@,
            status: self.status,
            parent_id: opt_text(self.parent_id),
            depend_id: opt_text(self.depend_id),
            created_at: opt_text(self.created_at),
        }
    }
}

impl DeepView for Task {
    type V = TaskView;

    open spec fn deep_view(&self) -> TaskView {
        self@
    }
}

impl View for TaskSummary {
    type V = TaskSummaryView;

    open spec fn view(&self) -> TaskSummaryView {
        TaskSummaryView {
            id: self.id@,
            title: self.title@,
            status: self.status,
            parent_id: opt_text(self.parent_id),
            depend_id: opt_text(self.depend_id),
        }
    }
}

impl DeepView for TaskSummary {
    type V = TaskSummaryView;

    open spec fn deep_view(&self) -> TaskSummaryView {
        self@
    }
}

impl Clone for Task {
    fn clone(&self) -> (copy: Task)
        ensures
            copy == *self,
    {
        Task {
            id: self.id.clone(),
            title: self.title.clone(),
            description: self.description.clone(),
            status: self.status,
            parent_id: clone_opt(&self.parent_id),
            depend_id: clone_opt(&self.depend_id),
            created_at: clone_opt(&self.created_at),
        }
    }
}

impl Clone for TaskSummary {
    fn clone(&self) -> (copy: TaskSummary)
        ensures
            copy == *self,
    {
        TaskSummary {
            id: self.id.clone(),
            title: self.title.clone(),
            status: self.status,
            parent_id: clone_opt(&self.parent_id),
            depend_id: clone_opt(&self.depend_id),
        }
    }
}

/// A copy of an optional string.
pub fn clone_opt(value: &Option<String>) -> (copy: Option<String>)
    ensures
        copy == *value,
{
    match value {
        Some(s) => Some(s.clone()),
        None => None,
    }
}

/// An owned copy of an optional string slice.
pub fn own_opt(value: Option<&str>) -> (owned: Option<String>)
    ensures
        opt_text(owned) == opt_str_text(value),
{
    match value {
        Some(s) => Some(String::from_str(s)),
        None => None,
    }
}

/// The task that a stored row stands for; the status is read from its code.
pub fn stored_task(
    id: String,
    title: String,
    description: String,
    code: i32,
    parent_id: Option<String>,
    depend_id: Option<String>,
    created_at: Option<String>,
) -> (task: Task)
    ensures
        task@ == (TaskView {
            id: id@,
            title: title@,
            description: description@,
            status: TaskStatus::of_code(code as int),
            parent_id: opt_text(parent_id),
            depend_id: opt_text(depend_id),
            created_at: opt_text(created_at),
        }),
{
    Task {
        id,
        title,
        description,
        status: TaskStatus::from_int(code),
        parent_id,
        depend_id,
        created_at,
    }
}

impl Task {
    /// The listing entry of a task.
    pub fn summary(&self) -> (entry: TaskSummary)
        ensures
            entry@ == summary_of(self@),
    {
        TaskSummary {
            id: self.id.clone(),
            title: self.title.clone(),
            status: self.status,
            parent_id: clone_opt(&self.parent_id),
            depend_id: clone_opt(&self.depend_id),
        }
    }
}

/// The listing entry of a task.
pub open spec fn summary_of(task: TaskView) -> TaskSummaryView {
    TaskSummaryView {
        id: task.id,
        title: task.title,
        status: task.status,
        parent_id: task.parent_id,
        depend_id: task.depend_id,
    }
}

/// The row that creation adds: pending, with the time of its creation.
pub open spec fn new_task(
    id: Seq<char>,
    title: Seq<char>,
    description: Seq<char>,
    parent: Option<Seq<char>>,
    depend: Option<Seq<char>>,
    created_at: Seq<char>,
) -> TaskView {
    TaskView {
        id,
        title,
        description,
        status: TaskStatus::Pending,
        parent_id: parent,
        depend_id: depend,
        created_at: Some(created_at),
    }
}

/// Some row has the identifier `id`.
pub open spec fn has_task(rows: Seq<TaskView>, id: Seq<char>) -> bool {
    exists|i: int| 0 <= i < rows.len() && (#[trigger] rows[i]).id == id
}

/// Row `at` is the first row with the identifier `id`.
pub open spec fn is_first(rows: Seq<TaskView>, id: Seq<char>, at: int) -> bool {
    &&& 0 <= at < rows.len()
    &&& rows[at].id == id
    &&& forall|j: int| 0 <= j < at ==> (#[trigger] rows[j]).id != id
}

/// The position of the first row with the identifier `id`.
pub open spec fn position(rows: Seq<TaskView>, id: Seq<char>) -> int {
    choose|at: int| is_first(rows, id, at)
}

/// The identifiers of the rows, in order.
pub open spec fn ids_of(rows: Seq<TaskView>) -> Seq<Seq<char>> {
    rows.map_values(|task: TaskView| task.id)
}

/// The rows that have `id` as their parent.
pub open spec fn children(rows: Seq<TaskView>, id: Seq<char>) -> Seq<TaskView> {
    rows.filter(|task: TaskView| task.parent_id == Some(id))
}

/// The unfinished rows that depend on `id`.
pub open spec fn active_dependents(rows: Seq<TaskView>, id: Seq<char>) -> Seq<TaskView> {
    rows.filter(|task: TaskView| task.depend_id == Some(id) && task.status != TaskStatus::Done)
}

/// The status that a listing is restricted to, if any: every status when
/// `all` is set, else in progress when `inprogress` is set, else pending.
pub open spec fn status_filter(inprogress: bool, all: bool) -> Option<TaskStatus> {
    if all {
        None
    } else if inprogress {
        Some(TaskStatus::InProgress)
    } else {
        Some(TaskStatus::Pending)
    }
}

/// Whether a listing with these restrictions shows `task`.
pub open spec fn listed(
    task: TaskView,
    status: Option<TaskStatus>,
    parent: Option<Seq<char>>,
) -> bool {
    &&& status matches Some(wanted) ==> task.status == wanted
    &&& parent matches Some(p) ==> task.parent_id == Some(p)
}

/// The listing: the rows that the restrictions admit, in creation order.
pub open spec fn listing(
    rows: Seq<TaskView>,
    inprogress: bool,
    all: bool,
    parent: Option<Seq<char>>,
) -> Seq<TaskSummaryView> {
    rows.filter(|task: TaskView| listed(task, status_filter(inprogress, all), parent)).map_values(
        |task: TaskView| summary_of(task),
    )
}

/// Why a listing is refused, if it is: the parent is malformed or missing.
pub open spec fn listing_error(rows: Seq<TaskView>, parent: Option<Seq<char>>) -> Option<
    StoreErrorView,
> {
    match parent {
        Some(p) => if !valid_id(p) {
            Some(StoreErrorView::InvalidId { id: p })
        } else if !has_task(rows, p) {
            Some(StoreErrorView::ParentNotFound { id: p })
        } else {
            None
        },
        None => None,
    }
}

/// Why the links of a new task are refused, if they are. The parent is
/// examined before the dependency.
pub open spec fn link_error(
    rows: Seq<TaskView>,
    parent: Option<Seq<char>>,
    depend: Option<Seq<char>>,
) -> Option<StoreErrorView> {
    if parent is Some && !valid_id(parent->0) {
        Some(StoreErrorView::InvalidId { id: parent->0 })
    } else if parent is Some && !has_task(rows, parent->0) {
        Some(StoreErrorView::MissingParent { id: parent->0 })
    } else if depend is Some && !valid_id(depend->0) {
        Some(StoreErrorView::InvalidId { id: depend->0 })
    } else if depend is Some && !has_task(rows, depend->0) {
        Some(StoreErrorView::MissingDependency { id: depend->0 })
    } else {
        None
    }
}

/// The outcome of looking a task up.
pub open spec fn fetched(rows: Seq<TaskView>, id: Seq<char>) -> Result<TaskView, StoreErrorView> {
    if !valid_id(id) {
        Err(StoreErrorView::InvalidId { id })
    } else if !has_task(rows, id) {
        Err(StoreErrorView::TaskNotFound { id })
    } else {
        Ok(rows[position(rows, id)])
    }
}

/// The outcome of replacing a task's description: the new rows, or why not.
pub open spec fn updated(rows: Seq<TaskView>, id: Seq<char>, description: Seq<char>) -> Result<
    Seq<TaskView>,
    StoreErrorView,
> {
    if !valid_id(id) {
        Err(StoreErrorView::InvalidId { id })
    } else if !has_task(rows, id) {
        Err(StoreErrorView::TaskNotFound { id })
    } else {
        let at = position(rows, id);
        Ok(rows.update(at, TaskView { description, ..rows[at] }))
    }
}

/// The outcome of starting a task: the new rows, or why not. Only a pending
/// task can be started.
pub open spec fn started(rows: Seq<TaskView>, id: Seq<char>) -> Result<
    Seq<TaskView>,
    StoreErrorView,
> {
    if !valid_id(id) {
        Err(StoreErrorView::InvalidId { id })
    } else if !has_task(rows, id) {
        Err(StoreErrorView::TaskNotFound { id })
    } else {
        let at = position(rows, id);
        match rows[at].status {
            TaskStatus::Pending => Ok(
                rows.update(at, TaskView { status: TaskStatus::InProgress, ..rows[at] }),
            ),
            TaskStatus::InProgress => Err(StoreErrorView::AlreadyInProgress { id }),
            TaskStatus::Done => Err(StoreErrorView::AlreadyDone { id }),
        }
    }
}

/// The dependency that keeps a task from being completed, if any: the task
/// names one, that task exists, and it is not done.
pub open spec fn blocking_dependency(rows: Seq<TaskView>, task: TaskView) -> Option<Seq<char>> {
    match task.depend_id {
        Some(d) => if has_task(rows, d) && rows[position(rows, d)].status != TaskStatus::Done {
            Some(d)
        } else {
            None
        },
        None => None,
    }
}

/// The outcome of completing a task: the new rows, or why not. A task that
/// is not done yet is completed from either earlier status, unless a
/// dependency that still exists is not done. A dependency that was removed
/// counts as satisfied.
pub open spec fn completed(rows: Seq<TaskView>, id: Seq<char>) -> Result<
    Seq<TaskView>,
    StoreErrorView,
> {
    if !valid_id(id) {
        Err(StoreErrorView::InvalidId { id })
    } else if !has_task(rows, id) {
        Err(StoreErrorView::TaskNotFound { id })
    } else {
        let at = position(rows, id);
        if rows[at].status == TaskStatus::Done {
            Err(StoreErrorView::AlreadyDone { id })
        } else {
            match blocking_dependency(rows, rows[at]) {
                Some(d) => Err(StoreErrorView::DependencyNotDone { id: d }),
                None => Ok(rows.update(at, TaskView { status: TaskStatus::Done, ..rows[at] })),
            }
        }
    }
}

/// The outcome of removing a task: the new rows, or why not. Unfinished
/// dependents are counted before children.
pub open spec fn removed(rows: Seq<TaskView>, id: Seq<char>) -> Result<
    Seq<TaskView>,
    StoreErrorView,
> {
    if !valid_id(id) {
        Err(StoreErrorView::InvalidId { id })
    } else if !has_task(rows, id) {
        Err(StoreErrorView::TaskNotFound { id })
    } else if active_dependents(rows, id).len() > 0 {
        Err(StoreErrorView::ActiveDependents { id, count: active_dependents(rows, id).len() })
    } else if children(rows, id).len() > 0 {
        Err(StoreErrorView::HasChildren { id, count: children(rows, id).len() })
    } else {
        Ok(rows.remove(position(rows, id)))
    }
}

/// The identifiers of the tasks that are not done, in creation order.
pub open spec fn open_ids(rows: Seq<TaskView>) -> Seq<Seq<char>> {
    ids_of(rows.filter(|task: TaskView| task.status != TaskStatus::Done))
}

/// The first row with a given identifier is unique.
pub proof fn first_is_position(rows: Seq<TaskView>, id: Seq<char>, at: int)
    requires
        is_first(rows, id, at),
    ensures
        has_task(rows, id),
        position(rows, id) == at,
{
    let chosen = position(rows, id);
    assert(is_first(rows, id, chosen));
    if chosen < at {
        assert(rows[chosen].id != id);
    }
    if at < chosen {
        assert(rows[at].id != id);
    }
}

/// Among the rows with a given identifier there is a first.
proof fn first_exists(rows: Seq<TaskView>, id: Seq<char>, at: int)
    requires
        0 <= at < rows.len(),
        rows[at].id == id,
    ensures
        exists|first: int| is_first(rows, id, first),
    decreases at,
{
    if exists|j: int| 0 <= j < at && (#[trigger] rows[j]).id == id {
        let j = choose|j: int| 0 <= j < at && (#[trigger] rows[j]).id == id;
        first_exists(rows, id, j);
    } else {
        assert(is_first(rows, id, at));
    }
}

/// The position of an identifier that some row has is that of the first such
/// row.
pub proof fn position_is_first(rows: Seq<TaskView>, id: Seq<char>)
    requires
        has_task(rows, id),
    ensures
        is_first(rows, id, position(rows, id)),
{
    let at = choose|i: int| 0 <= i < rows.len() && (#[trigger] rows[i]).id == id;
    first_exists(rows, id, at);
}

} // verus!
