//! What follows from the rules of the memory module: notes come newest
//! first, a bound cuts after ordering, and a removed note is gone.

use vstd::prelude::*;
use crate::error::StoreErrorView;
use crate::ident::{picked_is_acceptable, valid_id};
use crate::memory::{
    created_memory, fetched_memory, first_is_memory_position, has_memory,
    has_memory_is_contains, is_first_memory, memory_ids, memory_listing, memory_position,
    memory_position_is_first, new_memory, removed_memory, search_result, tagged, MemoryView,
};
use crate::selection::{filter_agrees, filter_selects, selects};
use crate::text::contains_text;

verus! {

/// No two notes share an identifier, and every identifier is well formed.
pub open spec fn well_formed(rows: Seq<MemoryView>) -> bool {
    &&& forall|i: int| 0 <= i < rows.len() ==> valid_id((#[trigger] rows[i]).id)
    &&& forall|i: int, j: int|
        0 <= i < j < rows.len() ==> (#[trigger] rows[i]).id != (#[trigger] rows[j]).id
}

/// The test that a listing puts to a note.
pub open spec fn carries(tag: Option<Seq<char>>) -> spec_fn(MemoryView) -> bool {
    |note: MemoryView| tagged(note, tag)
}

/// The test that a search puts to a note.
pub open spec fn mentions(query: Seq<char>) -> spec_fn(MemoryView) -> bool {
    |note: MemoryView| contains_text(note.content, query)
}

/// A listing without a bound shows exactly the notes that carry the tag,
/// each once and newest first: it selects from the rows in reverse.
pub proof fn listing_is_newest_first(rows: Seq<MemoryView>, tag: Option<Seq<char>>)
    ensures
        exists|at: Seq<int>|
            selects(rows.reverse(), carries(tag), memory_listing(rows, tag, None), at),
{
    let turned = rows.reverse();
    filter_agrees(turned, |note: MemoryView| tagged(note, tag), carries(tag));
    filter_selects(turned, carries(tag));
    let at = choose|at: Seq<int>| selects(turned, carries(tag), turned.filter(carries(tag)), at);
    assert(memory_listing(rows, tag, None) == turned.filter(carries(tag)));
    assert(selects(turned, carries(tag), memory_listing(rows, tag, None), at));
}

/// A search shows exactly the notes whose content contains the query, each
/// once and newest first.
pub proof fn search_is_newest_first(rows: Seq<MemoryView>, query: Seq<char>)
    ensures
        exists|at: Seq<int>|
            selects(rows.reverse(), mentions(query), search_result(rows, query), at),
{
    let turned = rows.reverse();
    filter_agrees(turned, |note: MemoryView| contains_text(note.content, query), mentions(query));
    filter_selects(turned, mentions(query));
    let at = choose|at: Seq<int>| selects(turned, mentions(query), turned.filter(mentions(query)), at);
    assert(search_result(rows, query) == turned.filter(mentions(query)));
    assert(selects(turned, mentions(query), search_result(rows, query), at));
}

/// A bound cuts the listing after it was ordered: the bounded listing is
/// the beginning of the unbounded one, as long as the bound or, where the
/// listing is shorter, as the listing.
pub proof fn bound_cuts_after_ordering(rows: Seq<MemoryView>, tag: Option<Seq<char>>, last: usize)
    ensures
        ({
            let full = memory_listing(rows, tag, None);
            let cut = memory_listing(rows, tag, Some(last));
            &&& cut.len() == if last <= full.len() {
                last as int
            } else {
                full.len() as int
            }
            &&& forall|k: int| 0 <= k < cut.len() ==> cut[k] == full[k]
        }),
{
}

/// A note that was removed is not found again, and no other note is lost.
pub proof fn removed_memory_is_gone(rows: Seq<MemoryView>, id: Seq<char>)
    requires
        well_formed(rows),
    ensures
        removed_memory(rows, id) matches Ok(after) ==> {
            &&& fetched_memory(after, id) == Err::<MemoryView, StoreErrorView>(
                StoreErrorView::MemoryNotFound { id },
            )
            &&& forall|other: Seq<char>|
                other != id && has_memory(rows, other) ==> has_memory(after, other)
        },
{
    if let Ok(after) = removed_memory(rows, id) {
        memory_position_is_first(rows, id);
        let at = memory_position(rows, id);
        if has_memory(after, id) {
            let j = choose|j: int| 0 <= j < after.len() && (#[trigger] after[j]).id == id;
            let from = if j < at {
                j
            } else {
                j + 1
            };
            assert(after[j] == rows[from]);
            assert(rows[from].id == rows[at].id);
        }
        assert forall|other: Seq<char>| other != id && has_memory(rows, other) implies has_memory(
            after,
            other,
        ) by {
            let k = choose|k: int| 0 <= k < rows.len() && (#[trigger] rows[k]).id == other;
            let to = if k < at {
                k
            } else {
                k - 1
            };
            assert(after[to] == rows[k]);
        }
    }
}

/// A note that was created is found under the identifier that creation
/// returned, with the content, the tags and the creation time it was created
/// with, and the notes keep their identifiers apart.
pub proof fn created_memory_is_found(
    rows: Seq<MemoryView>,
    candidates: Seq<Seq<char>>,
    content: Seq<char>,
    tags: Option<Seq<char>>,
    created_at: Seq<char>,
)
    ensures
        created_memory(rows, candidates, content, tags, created_at) matches Ok((id, after)) ==> {
            &&& valid_id(id)
            &&& !has_memory(rows, id)
            &&& fetched_memory(after, id) == Ok::<MemoryView, StoreErrorView>(
                new_memory(id, content, tags, created_at),
            )
            &&& well_formed(rows) ==> well_formed(after)
        },
{
    if let Ok((id, after)) = created_memory(rows, candidates, content, tags, created_at) {
        picked_is_acceptable(memory_ids(rows), candidates);
        has_memory_is_contains(rows, id);
        let last = rows.len() as int;
        assert(is_first_memory(after, id, last)) by {
            assert forall|j: int| 0 <= j < last implies (#[trigger] after[j]).id != id by {
                assert(after[j] == rows[j]);
            }
        }
        first_is_memory_position(after, id, last);
        if well_formed(rows) {
            assert forall|i: int, j: int| 0 <= i < j < after.len() implies (
            #[trigger] after[i]).id != (#[trigger] after[j]).id by {
                if j == last {
                    assert(rows[i].id != id);
                }
            }
        }
    }
}

} // verus!
