//! The executable task table: rows in creation order, with every operation
//! proved against the rules of the task module.

use vstd::prelude::*;
use vstd::string::*;
use crate::error::{StoreError, StoreErrorView};
use crate::ident::{
    acceptable, draw_candidates, empty_table_has_room, is_valid_id, pick_free_id, picked,
    picked_is_acceptable, valid_id, IdTable, MAX_ATTEMPTS,
};
use crate::status::TaskStatus;
use crate::task::{
    active_dependents, blocking_dependency, children, completed, fetched,
    first_is_position, has_task, ids_of, is_first, link_error, listed, listing, listing_error,
    new_task, open_ids, own_opt, position, removed, started, status_filter, summary_of, updated,
    Task, TaskSummary, TaskView,
};
use crate::text::{opt_str_text, opt_text_is, text_eq};

verus! {

/// The tasks of one project, oldest first.
pub struct TaskTable {
    pub rows: Vec<Task>,
}

impl View for TaskTable {
    type V = Seq<TaskView>;

    open spec fn view(&self) -> Seq<TaskView> {
        self.rows.deep_view()
    }
}

/// What creation does with a list of candidate identifiers: the identifier
/// handed out and the new rows, or why nothing was created.
pub open spec fn created(
    rows: Seq<TaskView>,
    candidates: Seq<Seq<char>>,
    title: Seq<char>,
    description: Seq<char>,
    parent: Option<Seq<char>>,
    depend: Option<Seq<char>>,
    created_at: Seq<char>,
) -> Result<(Seq<char>, Seq<TaskView>), StoreErrorView> {
    match link_error(rows, parent, depend) {
        Some(e) => Err(e),
        None => match picked(ids_of(rows), candidates) {
            Some(id) => Ok(
                (id, rows.push(new_task(id, title, description, parent, depend, created_at))),
            ),
            None => Err(StoreErrorView::IdsExhausted),
        },
    }
}

/// A row has an identifier exactly when the identifier is among the rows'.
pub proof fn has_task_is_contains(rows: Seq<TaskView>, id: Seq<char>)
    ensures
        has_task(rows, id) == ids_of(rows).contains(id),
{
    if has_task(rows, id) {
        let i = choose|i: int| 0 <= i < rows.len() && (#[trigger] rows[i]).id == id;
        assert(ids_of(rows)[i] == id);
    }
    if ids_of(rows).contains(id) {
        let i = choose|i: int| 0 <= i < ids_of(rows).len() && ids_of(rows)[i] == id;
        assert(rows[i].id == id);
    }
}

impl IdTable for TaskTable {
    open spec fn ids(&self) -> Seq<Seq<char>> {
        ids_of(self@)
    }

    fn holds(&self, id: &str) -> (found: bool) {
        proof {
            has_task_is_contains(self@, id@);
        }
        self.find(id).is_some()
    }
}

impl TaskTable {
    /// The table without rows.
    pub fn new() -> (table: TaskTable)
        ensures
            table@ == Seq::<TaskView>::empty(),
    {
        let table = TaskTable { rows: Vec::new() };
        assert(table@ =~= Seq::<TaskView>::empty());
        table
    }

    /// The position of the first row with this identifier.
    pub fn find(&self, id: &str) -> (found: Option<usize>)
        ensures
            match found {
                Some(at) => is_first(self@, id@, at as int) && at as int == position(self@, id@),
                None => !has_task(self@, id@),
            },
    {
        let mut i: usize = 0;
        while i < self.rows.len()
            invariant
                i <= self.rows@.len(),
                forall|j: int| 0 <= j < i ==> (#[trigger] self@[j]).id != id@,
            decreases self.rows@.len() - i,
        {
            if text_eq(self.rows[i].id.as_str(), id) {
                proof {
                    first_is_position(self@, id@, i as int);
                }
                return Some(i);
            }
            i += 1;
        }
        None
    }

    /// How many rows have `id` as their parent.
    pub fn count_children(&self, id: &str) -> (count: usize)
        ensures
            count == children(self@, id@).len(),
    {
        let ghost keep = |task: TaskView| task.parent_id == Some(id@);
        let mut count: usize = 0;
        let mut i: usize = 0;
        assert(self@.take(0) =~= Seq::<TaskView>::empty());
        proof {
            reveal(Seq::filter);
        }
        while i < self.rows.len()
            invariant
                i <= self.rows@.len(),
                count <= i,
                keep == |task: TaskView| task.parent_id == Some(id@),
                count == self@.take(i as int).filter(keep).len(),
            decreases self.rows@.len() - i,
        {
            proof {
                assert(self@.take(i + 1) =~= self@.take(i as int).push(self@[i as int]));
                self@.take(i as int).lemma_filter_push(self@[i as int], keep);
            }
            if opt_text_is(&self.rows[i].parent_id, id) {
                count += 1;
            }
            i += 1;
        }
        assert(self@.take(i as int) =~= self@);
        count
    }

    /// How many unfinished rows depend on `id`.
    pub fn count_active_dependents(&self, id: &str) -> (count: usize)
        ensures
            count == active_dependents(self@, id@).len(),
    {
        let ghost keep = |task: TaskView|
            task.depend_id == Some(id@) && task.status != TaskStatus::Done;
        let mut count: usize = 0;
        let mut i: usize = 0;
        assert(self@.take(0) =~= Seq::<TaskView>::empty());
        proof {
            reveal(Seq::filter);
        }
        while i < self.rows.len()
            invariant
                i <= self.rows@.len(),
                count <= i,
                keep == |task: TaskView|
                    task.depend_id == Some(id@) && task.status != TaskStatus::Done,
                count == self@.take(i as int).filter(keep).len(),
            decreases self.rows@.len() - i,
        {
            proof {
                assert(self@.take(i + 1) =~= self@.take(i as int).push(self@[i as int]));
                self@.take(i as int).lemma_filter_push(self@[i as int], keep);
            }
            let row = &self.rows[i];
            if opt_text_is(&row.depend_id, id) && row.status != TaskStatus::Done {
                count += 1;
            }
            i += 1;
        }
        assert(self@.take(i as int) =~= self@);
        count
    }

    /// Refuses the links of a new task when one of them is malformed or names
    /// no task; the parent is examined first.
    pub fn check_links(&self, parent: Option<&str>, depend: Option<&str>) -> (checked: Result<
        (),
        StoreError,
    >)
        ensures
            match link_error(self@, opt_str_text(parent), opt_str_text(depend)) {
                Some(e) => checked is Err && checked->Err_0@ == e,
                None => checked is Ok,
            },
    {
        if let Some(p) = parent {
            if !is_valid_id(p) {
                return Err(StoreError::InvalidId { id: String::from_str(p) });
            }
            if self.find(p).is_none() {
                return Err(StoreError::MissingParent { id: String::from_str(p) });
            }
        }
        if let Some(d) = depend {
            if !is_valid_id(d) {
                return Err(StoreError::InvalidId { id: String::from_str(d) });
            }
            if self.find(d).is_none() {
                return Err(StoreError::MissingDependency { id: String::from_str(d) });
            }
        }
        Ok(())
    }

    /// Creates a task under the first of the candidate identifiers that can
    /// be handed out, and returns that identifier. The new task is pending,
    /// carries `created_at` as the time of its creation, and stands last.
    pub fn create_from(
        &mut self,
        candidates: &Vec<String>,
        title: &str,
        description: &str,
        parent: Option<&str>,
        depend: Option<&str>,
        created_at: &str,
    ) -> (outcome: Result<String, StoreError>)
        ensures
            match created(
                old(self)@,
                candidates.deep_view(),
                title@,
                description@,
                opt_str_text(parent),
                opt_str_text(depend),
                created_at@,
            ) {
                Ok((id, rows)) => outcome is Ok && outcome->Ok_0@ == id && final(self)@ == rows,
                Err(e) => outcome is Err && outcome->Err_0@ == e && final(self)@ == old(self)@,
            },
    {
        self.check_links(parent, depend)?;
        let id = pick_free_id(&*self, candidates)?;
        let row = Task {
            id: id.clone(),
            title: String::from_str(title),
            description: String::from_str(description),
            status: TaskStatus::Pending,
            parent_id: own_opt(parent),
            depend_id: own_opt(depend),
            created_at: Some(String::from_str(created_at)),
        };
        self.rows.push(row);
        assert(self@ =~= old(self)@.push(
            new_task(
                id@,
                title@,
                description@,
                opt_str_text(parent),
                opt_str_text(depend),
                created_at@,
            ),
        ));
        Ok(id)
    }

    /// Creates a task under a freshly allocated identifier and returns the
    /// identifier. Which identifier is handed out is left to chance, and so
    /// is whether the allocator finds one; with valid links nothing else can
    /// fail.
    pub fn create(
        &mut self,
        title: &str,
        description: &str,
        parent: Option<&str>,
        depend: Option<&str>,
        created_at: &str,
    ) -> (outcome: Result<String, StoreError>)
        ensures
            match outcome {
                Ok(id) => {
                    &&& link_error(old(self)@, opt_str_text(parent), opt_str_text(depend)) is None
                    &&& acceptable(ids_of(old(self)@), id@)
                    &&& final(self)@ == old(self)@.push(
                        new_task(
                            id@,
                            title@,
                            description@,
                            opt_str_text(parent),
                            opt_str_text(depend),
                            created_at@,
                        ),
                    )
                },
                Err(e) => {
                    &&& final(self)@ == old(self)@
                    &&& match link_error(old(self)@, opt_str_text(parent), opt_str_text(depend)) {
                        Some(reason) => e@ == reason,
                        None => e@ == StoreErrorView::IdsExhausted,
                    }
                },
            },
            link_error(old(self)@, opt_str_text(parent), opt_str_text(depend)) is Some
                ==> outcome is Err,
            old(self)@.len() == 0 && parent is None && depend is None ==> outcome is Ok,
    {
        let candidates = draw_candidates(MAX_ATTEMPTS);
        proof {
            picked_is_acceptable(ids_of(self@), candidates.deep_view());
            if self@.len() == 0 {
                assert forall|i: int| 0 <= i < candidates.deep_view().len() implies valid_id(
                    #[trigger] candidates.deep_view()[i],
                ) by {
                    assert(candidates.deep_view()[i] == candidates@[i]@);
                }
                empty_table_has_room(ids_of(self@), candidates.deep_view());
            }
        }
        self.create_from(&candidates, title, description, parent, depend, created_at)
    }
}

impl TaskTable {
    /// Lists tasks, oldest first: all of them when `all` is set, else those
    /// in progress when `inprogress` is set, else the pending ones. With a
    /// parent only its direct children are listed; the parent must exist.
    pub fn list(&self, inprogress: bool, all: bool, parent: Option<&str>) -> (outcome: Result<
        Vec<TaskSummary>,
        StoreError,
    >)
        ensures
            match listing_error(self@, opt_str_text(parent)) {
                Some(e) => outcome is Err && outcome->Err_0@ == e,
                None => outcome is Ok && outcome->Ok_0.deep_view() == listing(
                    self@,
                    inprogress,
                    all,
                    opt_str_text(parent),
                ),
            },
    {
        if let Some(p) = parent {
            if !is_valid_id(p) {
                return Err(StoreError::InvalidId { id: String::from_str(p) });
            }
            if self.find(p).is_none() {
                return Err(StoreError::ParentNotFound { id: String::from_str(p) });
            }
        }
        let ghost wanted = status_filter(inprogress, all);
        let ghost keep = |task: TaskView| listed(task, wanted, opt_str_text(parent));
        let ghost entry = |task: TaskView| summary_of(task);
        let mut entries: Vec<TaskSummary> = Vec::new();
        let mut i: usize = 0;
        assert(self@.take(0) =~= Seq::<TaskView>::empty());
        proof {
            reveal(Seq::filter);
        }
        assert(entries.deep_view() =~= self@.take(0).filter(keep).map_values(entry));
        while i < self.rows.len()
            invariant
                i <= self.rows@.len(),
                wanted == status_filter(inprogress, all),
                keep == |task: TaskView| listed(task, wanted, opt_str_text(parent)),
                entry == |task: TaskView| summary_of(task),
                entries.deep_view() == self@.take(i as int).filter(keep).map_values(entry),
            decreases self.rows@.len() - i,
        {
            let row = &self.rows[i];
            let status_fits = all || (if inprogress {
                row.status == TaskStatus::InProgress
            } else {
                row.status == TaskStatus::Pending
            });
            let parent_fits = match parent {
                Some(p) => opt_text_is(&row.parent_id, p),
                None => true,
            };
            let ghost before = entries.deep_view();
            if status_fits && parent_fits {
                entries.push(row.summary());
                assert(entries.deep_view() =~= before.push(summary_of(self@[i as int])));
            }
            proof {
                let seen = self@.take(i as int);
                assert(self@.take(i + 1) =~= seen.push(self@[i as int]));
                seen.lemma_filter_push(self@[i as int], keep);
                assert(seen.filter(keep).push(self@[i as int]).map_values(entry)
                    =~= seen.filter(keep).map_values(entry).push(summary_of(self@[i as int])));
            }
            i += 1;
        }
        assert(self@.take(i as int) =~= self@);
        Ok(entries)
    }

    /// The task with this identifier, in full.
    pub fn get(&self, id: &str) -> (outcome: Result<Task, StoreError>)
        ensures
            match fetched(self@, id@) {
                Ok(task) => outcome is Ok && outcome->Ok_0@ == task,
                Err(e) => outcome is Err && outcome->Err_0@ == e,
            },
    {
        if !is_valid_id(id) {
            return Err(StoreError::InvalidId { id: String::from_str(id) });
        }
        match self.find(id) {
            Some(at) => Ok(self.rows[at].clone()),
            None => Err(StoreError::TaskNotFound { id: String::from_str(id) }),
        }
    }

    /// Replaces the description of a task and nothing else.
    pub fn update(&mut self, id: &str, description: &str) -> (outcome: Result<(), StoreError>)
        ensures
            match updated(old(self)@, id@, description@) {
                Ok(rows) => outcome is Ok && final(self)@ == rows,
                Err(e) => outcome is Err && outcome->Err_0@ == e && final(self)@ == old(self)@,
            },
    {
        if !is_valid_id(id) {
            return Err(StoreError::InvalidId { id: String::from_str(id) });
        }
        match self.find(id) {
            Some(at) => {
                self.rows[at].description = String::from_str(description);
                assert(self@ =~= old(self)@.update(
                    at as int,
                    TaskView { description: description@, ..old(self)@[at as int] },
                ));
                Ok(())
            },
            None => Err(StoreError::TaskNotFound { id: String::from_str(id) }),
        }
    }

    /// Starts a pending task. A task that was started before, or that is
    /// done, is refused, and the refusal says which of the two it is.
    pub fn start(&mut self, id: &str) -> (outcome: Result<(), StoreError>)
        ensures
            match started(old(self)@, id@) {
                Ok(rows) => outcome is Ok && final(self)@ == rows,
                Err(e) => outcome is Err && outcome->Err_0@ == e && final(self)@ == old(self)@,
            },
    {
        if !is_valid_id(id) {
            return Err(StoreError::InvalidId { id: String::from_str(id) });
        }
        match self.find(id) {
            Some(at) => match self.rows[at].status {
                TaskStatus::Pending => {
                    self.rows[at].status = TaskStatus::InProgress;
                    assert(self@ =~= old(self)@.update(
                        at as int,
                        TaskView { status: TaskStatus::InProgress, ..old(self)@[at as int] },
                    ));
                    Ok(())
                },
                TaskStatus::InProgress => Err(
                    StoreError::AlreadyInProgress { id: String::from_str(id) },
                ),
                TaskStatus::Done => Err(StoreError::AlreadyDone { id: String::from_str(id) }),
            },
            None => Err(StoreError::TaskNotFound { id: String::from_str(id) }),
        }
    }

    /// The dependency that keeps row `at` from being completed, if any.
    fn blocker(&self, at: usize) -> (blocking: Option<String>)
        requires
            at < self.rows@.len(),
        ensures
            crate::text::opt_text(blocking) == blocking_dependency(self@, self@[at as int]),
    {
        match &self.rows[at].depend_id {
            Some(d) => match self.find(d.as_str()) {
                Some(dep) => if self.rows[dep].status != TaskStatus::Done {
                    Some(d.clone())
                } else {
                    None
                },
                None => None,
            },
            None => None,
        }
    }

    /// Completes a task from either earlier status. A task that is done is
    /// refused, and so is one whose dependency exists and is not done.
    pub fn complete(&mut self, id: &str) -> (outcome: Result<(), StoreError>)
        ensures
            match completed(old(self)@, id@) {
                Ok(rows) => outcome is Ok && final(self)@ == rows,
                Err(e) => outcome is Err && outcome->Err_0@ == e && final(self)@ == old(self)@,
            },
    {
        if !is_valid_id(id) {
            return Err(StoreError::InvalidId { id: String::from_str(id) });
        }
        match self.find(id) {
            Some(at) => {
                if self.rows[at].status == TaskStatus::Done {
                    return Err(StoreError::AlreadyDone { id: String::from_str(id) });
                }
                match self.blocker(at) {
                    Some(d) => Err(StoreError::DependencyNotDone { id: d }),
                    None => {
                        self.rows[at].status = TaskStatus::Done;
                        assert(self@ =~= old(self)@.update(
                            at as int,
                            TaskView { status: TaskStatus::Done, ..old(self)@[at as int] },
                        ));
                        Ok(())
                    },
                }
            },
            None => Err(StoreError::TaskNotFound { id: String::from_str(id) }),
        }
    }

    /// Removes a task that no unfinished task depends on and that has no
    /// children. The refusal counts what stands in the way.
    pub fn remove(&mut self, id: &str) -> (outcome: Result<(), StoreError>)
        ensures
            match removed(old(self)@, id@) {
                Ok(rows) => outcome is Ok && final(self)@ == rows,
                Err(e) => outcome is Err && outcome->Err_0@ == e && final(self)@ == old(self)@,
            },
    {
        if !is_valid_id(id) {
            return Err(StoreError::InvalidId { id: String::from_str(id) });
        }
        match self.find(id) {
            Some(at) => {
                let dependents = self.count_active_dependents(id);
                if dependents > 0 {
                    return Err(
                        StoreError::ActiveDependents { id: String::from_str(id), count: dependents },
                    );
                }
                let offspring = self.count_children(id);
                if offspring > 0 {
                    return Err(
                        StoreError::HasChildren { id: String::from_str(id), count: offspring },
                    );
                }
                self.rows.remove(at);
                assert(self@ =~= old(self)@.remove(at as int));
                Ok(())
            },
            None => Err(StoreError::TaskNotFound { id: String::from_str(id) }),
        }
    }

    /// The identifiers of the tasks that are not done, oldest first.
    pub fn open_ids(&self) -> (ids: Vec<String>)
        ensures
            ids.deep_view() == open_ids(self@),
    {
        let ghost keep = |task: TaskView| task.status != TaskStatus::Done;
        let ghost name = |task: TaskView| task.id;
        let mut ids: Vec<String> = Vec::new();
        let mut i: usize = 0;
        assert(self@.take(0) =~= Seq::<TaskView>::empty());
        proof {
            reveal(Seq::filter);
        }
        assert(ids.deep_view() =~= self@.take(0).filter(keep).map_values(name));
        while i < self.rows.len()
            invariant
                i <= self.rows@.len(),
                keep == |task: TaskView| task.status != TaskStatus::Done,
                name == |task: TaskView| task.id,
                ids.deep_view() == self@.take(i as int).filter(keep).map_values(name),
            decreases self.rows@.len() - i,
        {
            let row = &self.rows[i];
            let ghost before = ids.deep_view();
            if row.status != TaskStatus::Done {
                ids.push(row.id.clone());
                assert(ids.deep_view() =~= before.push(self@[i as int].id));
            }
            proof {
                let seen = self@.take(i as int);
                assert(self@.take(i + 1) =~= seen.push(self@[i as int]));
                seen.lemma_filter_push(self@[i as int], keep);
                assert(seen.filter(keep).push(self@[i as int]).map_values(name)
                    =~= seen.filter(keep).map_values(name).push(self@[i as int].id));
            }
            i += 1;
        }
        assert(self@.take(i as int) =~= self@);
        ids
    }
}

} // verus!
