//! Memory notes: free-form text with optional tags, kept in creation order
//! and shown newest first.

use vstd::prelude::*;
use vstd::string::*;
use crate::error::{StoreError, StoreErrorView};
use crate::ident::{
    acceptable, draw_candidates, empty_table_has_room, is_valid_id, pick_free_id, picked,
    picked_is_acceptable, valid_id, IdTable, MAX_ATTEMPTS,
};
use crate::task::{clone_opt, own_opt};
use crate::text::{contains_text, opt_str_text, opt_text, text_contains, text_eq};

verus! {

/// A note of project knowledge.
#[derive(Debug, PartialEq, Eq)]
pub struct Memory {
    pub id: String,
    pub content: String,
    pub tags: Option<String>,
    pub created_at: Option<String>,
}

/// A note as a mathematical value.
pub struct MemoryView {
    pub id: Seq<char>,
    pub content: Seq<char>,
    pub tags: Option<Seq<char>>,
    pub created_at: Option<Seq<char>>,
}

impl View for Memory {
    type V = MemoryView;

    open spec fn view(&self) -> MemoryView {
        MemoryView {
            id: self.id@,
            content: self.content@,
            tags: opt_text(self.tags),
            created_at: opt_text(self.created_at),
        }
    }
}

impl DeepView for Memory {
    type V = MemoryView;

    open spec fn deep_view(&self) -> MemoryView {
        self@
    }
}

impl Clone for Memory {
    fn clone(&self) -> (copy: Memory)
        ensures
            copy == *self,
    {
        Memory {
            id: self.id.clone(),
            content: self.content.clone(),
            tags: clone_opt(&self.tags),
            created_at: clone_opt(&self.created_at),
        }
    }
}

/// The note that a stored row stands for.
pub fn stored_memory(
    id: String,
    content: String,
    tags: Option<String>,
    created_at: Option<String>,
) -> (note: Memory)
    ensures
        note@ == (MemoryView {
            id: id@,
            content: content@,
            tags: opt_text(tags),
            created_at: opt_text(created_at),
        }),
{
    Memory { id, content, tags, created_at }
}

/// The notes of one project, oldest first.
pub struct MemoryTable {
    pub rows: Vec<Memory>,
}

impl View for MemoryTable {
    type V = Seq<MemoryView>;

    open spec fn view(&self) -> Seq<MemoryView> {
        self.rows.deep_view()
    }
}

/// The row that creation adds, with the time of its creation.
pub open spec fn new_memory(
    id: Seq<char>,
    content: Seq<char>,
    tags: Option<Seq<char>>,
    created_at: Seq<char>,
) -> MemoryView {
    MemoryView { id, content, tags, created_at: Some(created_at) }
}

/// Some note has the identifier `id`.
pub open spec fn has_memory(rows: Seq<MemoryView>, id: Seq<char>) -> bool {
    exists|i: int| 0 <= i < rows.len() && (#[trigger] rows[i]).id == id
}

/// Row `at` is the first note with the identifier `id`.
pub open spec fn is_first_memory(rows: Seq<MemoryView>, id: Seq<char>, at: int) -> bool {
    &&& 0 <= at < rows.len()
    &&& rows[at].id == id
    &&& forall|j: int| 0 <= j < at ==> (#[trigger] rows[j]).id != id
}

/// The position of the first note with the identifier `id`.
pub open spec fn memory_position(rows: Seq<MemoryView>, id: Seq<char>) -> int {
    choose|at: int| is_first_memory(rows, id, at)
}

/// The identifiers of the notes, in order.
pub open spec fn memory_ids(rows: Seq<MemoryView>) -> Seq<Seq<char>> {
    rows.map_values(|note: MemoryView| note.id)
}

/// Whether a note carries the tag: its tags are present and contain the tag
/// as a substring. Without a tag to look for every note passes.
pub open spec fn tagged(note: MemoryView, tag: Option<Seq<char>>) -> bool {
    match tag {
        Some(wanted) => note.tags matches Some(tags) && contains_text(tags, wanted),
        None => true,
    }
}

/// The first `last` entries, or all of them where no bound is given.
pub open spec fn newest(entries: Seq<MemoryView>, last: Option<usize>) -> Seq<MemoryView> {
    match last {
        Some(n) => if n <= entries.len() {
            entries.take(n as int)
        } else {
            entries
        },
        None => entries,
    }
}

/// The listing: the notes that carry the tag, newest first, cut to the first
/// `last` entries after ordering.
pub open spec fn memory_listing(
    rows: Seq<MemoryView>,
    tag: Option<Seq<char>>,
    last: Option<usize>,
) -> Seq<MemoryView> {
    newest(rows.reverse().filter(|note: MemoryView| tagged(note, tag)), last)
}

/// The notes whose content contains the query as a substring, newest first.
pub open spec fn search_result(rows: Seq<MemoryView>, query: Seq<char>) -> Seq<MemoryView> {
    rows.reverse().filter(|note: MemoryView| contains_text(note.content, query))
}

/// The outcome of looking a note up.
pub open spec fn fetched_memory(rows: Seq<MemoryView>, id: Seq<char>) -> Result<
    MemoryView,
    StoreErrorView,
> {
    if !valid_id(id) {
        Err(StoreErrorView::InvalidId { id })
    } else if !has_memory(rows, id) {
        Err(StoreErrorView::MemoryNotFound { id })
    } else {
        Ok(rows[memory_position(rows, id)])
    }
}

/// The outcome of removing a note: the remaining notes, or why not. Nothing
/// but its absence keeps a note from being removed.
pub open spec fn removed_memory(rows: Seq<MemoryView>, id: Seq<char>) -> Result<
    Seq<MemoryView>,
    StoreErrorView,
> {
    if !valid_id(id) {
        Err(StoreErrorView::InvalidId { id })
    } else if !has_memory(rows, id) {
        Err(StoreErrorView::MemoryNotFound { id })
    } else {
        Ok(rows.remove(memory_position(rows, id)))
    }
}

/// What creation does with a list of candidate identifiers: the identifier
/// handed out and the new rows, or exhaustion.
pub open spec fn created_memory(
    rows: Seq<MemoryView>,
    candidates: Seq<Seq<char>>,
    content: Seq<char>,
    tags: Option<Seq<char>>,
    created_at: Seq<char>,
) -> Result<(Seq<char>, Seq<MemoryView>), StoreErrorView> {
    match picked(memory_ids(rows), candidates) {
        Some(id) => Ok((id, rows.push(new_memory(id, content, tags, created_at)))),
        None => Err(StoreErrorView::IdsExhausted),
    }
}

/// The first note with a given identifier is unique.
pub proof fn first_is_memory_position(rows: Seq<MemoryView>, id: Seq<char>, at: int)
    requires
        is_first_memory(rows, id, at),
    ensures
        has_memory(rows, id),
        memory_position(rows, id) == at,
{
    let chosen = memory_position(rows, id);
    assert(is_first_memory(rows, id, chosen));
    if chosen < at {
        assert(rows[chosen].id != id);
    }
    if at < chosen {
        assert(rows[at].id != id);
    }
}

/// Among the notes with a given identifier there is a first.
proof fn first_exists(rows: Seq<MemoryView>, id: Seq<char>, at: int)
    requires
        0 <= at < rows.len(),
        rows[at].id == id,
    ensures
        exists|first: int| is_first_memory(rows, id, first),
    decreases at,
{
    if exists|j: int| 0 <= j < at && (#[trigger] rows[j]).id == id {
        let j = choose|j: int| 0 <= j < at && (#[trigger] rows[j]).id == id;
        first_exists(rows, id, j);
    } else {
        assert(is_first_memory(rows, id, at));
    }
}

/// The position of an identifier that some note has is that of the first
/// such note.
pub proof fn memory_position_is_first(rows: Seq<MemoryView>, id: Seq<char>)
    requires
        has_memory(rows, id),
    ensures
        is_first_memory(rows, id, memory_position(rows, id)),
{
    let at = choose|i: int| 0 <= i < rows.len() && (#[trigger] rows[i]).id == id;
    first_exists(rows, id, at);
}

/// A note has an identifier exactly when the identifier is among the notes'.
pub proof fn has_memory_is_contains(rows: Seq<MemoryView>, id: Seq<char>)
    ensures
        has_memory(rows, id) == memory_ids(rows).contains(id),
{
    if has_memory(rows, id) {
        let i = choose|i: int| 0 <= i < rows.len() && (#[trigger] rows[i]).id == id;
        assert(memory_ids(rows)[i] == id);
    }
    if memory_ids(rows).contains(id) {
        let i = choose|i: int| 0 <= i < memory_ids(rows).len() && memory_ids(rows)[i] == id;
        assert(rows[i].id == id);
    }
}

impl IdTable for MemoryTable {
    open spec fn ids(&self) -> Seq<Seq<char>> {
        memory_ids(self@)
    }

    fn holds(&self, id: &str) -> (found: bool) {
        proof {
            has_memory_is_contains(self@, id@);
        }
        self.find(id).is_some()
    }
}

impl MemoryTable {
    /// The table without notes.
    pub fn new() -> (table: MemoryTable)
        ensures
            table@ == Seq::<MemoryView>::empty(),
    {
        let table = MemoryTable { rows: Vec::new() };
        assert(table@ =~= Seq::<MemoryView>::empty());
        table
    }

    /// The position of the first note with this identifier.
    pub fn find(&self, id: &str) -> (found: Option<usize>)
        ensures
            match found {
                Some(at) => is_first_memory(self@, id@, at as int) && at as int
                    == memory_position(self@, id@),
                None => !has_memory(self@, id@),
            },
    {
        let mut i: usize = 0;
        while i < self.rows.len()
            invariant
                i <= self.rows@.len(),
                forall|j: int| 0 <= j < i ==> (#[trigger] self@[j]).id != id@,
            decreases self.rows@.len() - i,
        {
            if text_eq(self.rows[i].id.as_str(), id) {
                proof {
                    first_is_memory_position(self@, id@, i as int);
                }
                return Some(i);
            }
            i += 1;
        }
        None
    }

    /// Stores a note under the first of the candidate identifiers that can be
    /// handed out, and returns that identifier. The new note carries
    /// `created_at` as the time of its creation and stands last.
    pub fn create_from(
        &mut self,
        candidates: &Vec<String>,
        content: &str,
        tags: Option<&str>,
        created_at: &str,
    ) -> (outcome: Result<String, StoreError>)
        ensures
            match created_memory(
                old(self)@,
                candidates.deep_view(),
                content@,
                opt_str_text(tags),
                created_at@,
            ) {
                Ok((id, rows)) => outcome is Ok && outcome->Ok_0@ == id && final(self)@ == rows,
                Err(e) => outcome is Err && outcome->Err_0@ == e && final(self)@ == old(self)@,
            },
    {
        let id = pick_free_id(&*self, candidates)?;
        let row = Memory {
            id: id.clone(),
            content: String::from_str(content),
            tags: own_opt(tags),
            created_at: Some(String::from_str(created_at)),
        };
        self.rows.push(row);
        assert(self@ =~= old(self)@.push(
            new_memory(id@, content@, opt_str_text(tags), created_at@),
        ));
        Ok(id)
    }

    /// Stores a note under a freshly allocated identifier and returns the
    /// identifier. Which identifier is handed out is left to chance, and so
    /// is whether the allocator finds one; nothing else can fail.
    pub fn create(&mut self, content: &str, tags: Option<&str>, created_at: &str) -> (outcome:
        Result<String, StoreError>)
        ensures
            match outcome {
                Ok(id) => {
                    &&& acceptable(memory_ids(old(self)@), id@)
                    &&& final(self)@ == old(self)@.push(
                        new_memory(id@, content@, opt_str_text(tags), created_at@),
                    )
                },
                Err(e) => final(self)@ == old(self)@ && e@ == StoreErrorView::IdsExhausted,
            },
            old(self)@.len() == 0 ==> outcome is Ok,
    {
        let candidates = draw_candidates(MAX_ATTEMPTS);
        proof {
            picked_is_acceptable(memory_ids(self@), candidates.deep_view());
            if self@.len() == 0 {
                assert forall|i: int| 0 <= i < candidates.deep_view().len() implies valid_id(
                    #[trigger] candidates.deep_view()[i],
                ) by {
                    assert(candidates.deep_view()[i] == candidates@[i]@);
                }
                empty_table_has_room(memory_ids(self@), candidates.deep_view());
            }
        }
        self.create_from(&candidates, content, tags, created_at)
    }

    /// Whether the note carries the tag.
    fn carries(note: &Memory, tag: Option<&str>) -> (yes: bool)
        ensures
            yes == tagged(note@, opt_str_text(tag)),
    {
        match tag {
            Some(wanted) => match &note.tags {
                Some(tags) => text_contains(tags.as_str(), wanted),
                None => false,
            },
            None => true,
        }
    }

    /// Lists the notes that carry the tag, newest first, and keeps the first
    /// `last` of them where a bound is given.
    pub fn list(&self, tag: Option<&str>, last: Option<usize>) -> (entries: Vec<Memory>)
        ensures
            entries.deep_view() == memory_listing(self@, opt_str_text(tag), last),
    {
        let ghost keep = |note: MemoryView| tagged(note, opt_str_text(tag));
        let ghost turned = self@.reverse();
        let mut entries: Vec<Memory> = Vec::new();
        let total: usize = self.rows.len();
        let mut done: usize = 0;
        assert(turned.take(0) =~= Seq::<MemoryView>::empty());
        proof {
            reveal(Seq::filter);
        }
        assert(entries.deep_view() =~= turned.take(0).filter(keep));
        while done < total
            invariant
                done <= total,
                total == self.rows@.len(),
                turned == self@.reverse(),
                keep == |note: MemoryView| tagged(note, opt_str_text(tag)),
                entries.deep_view() == turned.take(done as int).filter(keep),
            decreases total - done,
        {
            let row = &self.rows[total - 1 - done];
            assert(row@ == turned[done as int]);
            let ghost before = entries.deep_view();
            if Self::carries(row, tag) {
                entries.push(row.clone());
                assert(entries.deep_view() =~= before.push(turned[done as int]));
            }
            proof {
                let seen = turned.take(done as int);
                assert(turned.take(done + 1) =~= seen.push(turned[done as int]));
                seen.lemma_filter_push(turned[done as int], keep);
            }
            done += 1;
        }
        assert(turned.take(done as int) =~= turned);
        if let Some(n) = last {
            let ghost full = entries.deep_view();
            entries.truncate(n);
            assert(entries.deep_view() =~= newest(full, last));
        }
        entries
    }

    /// The note with this identifier.
    pub fn get(&self, id: &str) -> (outcome: Result<Memory, StoreError>)
        ensures
            match fetched_memory(self@, id@) {
                Ok(note) => outcome is Ok && outcome->Ok_0@ == note,
                Err(e) => outcome is Err && outcome->Err_0@ == e,
            },
    {
        if !is_valid_id(id) {
            return Err(StoreError::InvalidId { id: String::from_str(id) });
        }
        match self.find(id) {
            Some(at) => Ok(self.rows[at].clone()),
            None => Err(StoreError::MemoryNotFound { id: String::from_str(id) }),
        }
    }

    /// The notes whose content contains the query, newest first.
    pub fn search(&self, query: &str) -> (entries: Vec<Memory>)
        ensures
            entries.deep_view() == search_result(self@, query@),
    {
        let ghost keep = |note: MemoryView| contains_text(note.content, query@);
        let ghost turned = self@.reverse();
        let mut entries: Vec<Memory> = Vec::new();
        let total: usize = self.rows.len();
        let mut done: usize = 0;
        assert(turned.take(0) =~= Seq::<MemoryView>::empty());
        proof {
            reveal(Seq::filter);
        }
        assert(entries.deep_view() =~= turned.take(0).filter(keep));
        while done < total
            invariant
                done <= total,
                total == self.rows@.len(),
                turned == self@.reverse(),
                keep == |note: MemoryView| contains_text(note.content, query@),
                entries.deep_view() == turned.take(done as int).filter(keep),
            decreases total - done,
        {
            let row = &self.rows[total - 1 - done];
            assert(row@ == turned[done as int]);
            let ghost before = entries.deep_view();
            if text_contains(row.content.as_str(), query) {
                entries.push(row.clone());
                assert(entries.deep_view() =~= before.push(turned[done as int]));
            }
            proof {
                let seen = turned.take(done as int);
                assert(turned.take(done + 1) =~= seen.push(turned[done as int]));
                seen.lemma_filter_push(turned[done as int], keep);
            }
            done += 1;
        }
        assert(turned.take(done as int) =~= turned);
        entries
    }

    /// Removes the note with this identifier.
    pub fn remove(&mut self, id: &str) -> (outcome: Result<(), StoreError>)
        ensures
            match removed_memory(old(self)@, id@) {
                Ok(rows) => outcome is Ok && final(self)@ == rows,
                Err(e) => outcome is Err && outcome->Err_0@ == e && final(self)@ == old(self)@,
            },
    {
        if !is_valid_id(id) {
            return Err(StoreError::InvalidId { id: String::from_str(id) });
        }
        match self.find(id) {
            Some(at) => {
                self.rows.remove(at);
                assert(self@ =~= old(self)@.remove(at as int));
                Ok(())
            },
            None => Err(StoreError::MemoryNotFound { id: String::from_str(id) }),
        }
    }
}

} // verus!
