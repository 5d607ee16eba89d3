//! What it means to select from a sequence: the rows that pass a test, each
//! once, in the order in which they stand.

use vstd::prelude::*;

verus! {

/// `picked` holds exactly the rows that `keep` admits, in their order:
/// `at` gives the place of every picked row, the places rise, and no
/// admitted row is left out.
pub open spec fn selects<A>(
    rows: Seq<A>,
    keep: spec_fn(A) -> bool,
    picked: Seq<A>,
    at: Seq<int>,
) -> bool {
    &&& at.len() == picked.len()
    &&& forall|k: int|
        0 <= k < at.len() ==> 0 <= #[trigger] at[k] < rows.len() && picked[k] == rows[at[k]]
            && keep(rows[at[k]])
    &&& forall|k: int, l: int| 0 <= k < l < at.len() ==> #[trigger] at[k] < #[trigger] at[l]
    &&& forall|i: int|
        0 <= i < rows.len() && keep(#[trigger] rows[i]) ==> exists|k: int|
            0 <= k < at.len() && #[trigger] at[k] == i
}

/// A filter keeps something exactly when some row passes its test.
pub proof fn filter_finds<A>(rows: Seq<A>, keep: spec_fn(A) -> bool)
    ensures
        rows.filter(keep).len() > 0 <==> exists|i: int|
            0 <= i < rows.len() && keep(#[trigger] rows[i]),
    decreases rows.len(),
{
    reveal(Seq::filter);
    if rows.len() > 0 {
        let front = rows.drop_last();
        filter_finds(front, keep);
        if rows.filter(keep).len() > 0 {
            if keep(rows.last()) {
                assert(keep(rows[rows.len() - 1]));
            } else {
                let i = choose|i: int| 0 <= i < front.len() && keep(#[trigger] front[i]);
                assert(keep(rows[i]));
            }
        }
        if exists|i: int| 0 <= i < rows.len() && keep(#[trigger] rows[i]) {
            let i = choose|i: int| 0 <= i < rows.len() && keep(#[trigger] rows[i]);
            if i < rows.len() - 1 {
                assert(keep(front[i]));
            }
        }
    }
}

/// Two tests that agree on every row keep the same rows.
pub proof fn filter_agrees<A>(rows: Seq<A>, keep: spec_fn(A) -> bool, other: spec_fn(A) -> bool)
    requires
        forall|row: A| #[trigger] keep(row) == other(row),
    ensures
        rows.filter(keep) == rows.filter(other),
    decreases rows.len(),
{
    reveal(Seq::filter);
    if rows.len() > 0 {
        filter_agrees(rows.drop_last(), keep, other);
    }
}

/// A filter selects.
pub proof fn filter_selects<A>(rows: Seq<A>, keep: spec_fn(A) -> bool)
    ensures
        exists|at: Seq<int>| selects(rows, keep, rows.filter(keep), at),
    decreases rows.len(),
{
    reveal(Seq::filter);
    if rows.len() == 0 {
        assert(selects(rows, keep, rows.filter(keep), Seq::<int>::empty()));
    } else {
        let front = rows.drop_last();
        filter_selects(front, keep);
        let before = choose|at: Seq<int>| selects(front, keep, front.filter(keep), at);
        let last = rows.len() - 1;
        if keep(rows.last()) {
            let at = before.push(last);
            let picked = rows.filter(keep);
            assert(picked == front.filter(keep).push(rows.last()));
            assert forall|k: int| 0 <= k < at.len() implies 0 <= #[trigger] at[k] < rows.len()
                && picked[k] == rows[at[k]] && keep(rows[at[k]]) by {
                if k < before.len() {
                    assert(at[k] == before[k]);
                    assert(front[before[k]] == rows[before[k]]);
                }
            }
            assert forall|k: int, l: int| 0 <= k < l < at.len() implies #[trigger] at[k]
                < #[trigger] at[l] by {
                assert(at[k] == before[k]);
                if l < before.len() {
                    assert(at[l] == before[l]);
                }
            }
            assert forall|i: int| 0 <= i < rows.len() && keep(#[trigger] rows[i]) implies exists|
                k: int,
            |
                0 <= k < at.len() && #[trigger] at[k] == i by {
                if i < last {
                    assert(keep(front[i]));
                    let k = choose|k: int| 0 <= k < before.len() && #[trigger] before[k] == i;
                    assert(at[k] == i);
                } else {
                    assert(at[before.len() as int] == i);
                }
            }
            assert(selects(rows, keep, picked, at));
        } else {
            let picked = rows.filter(keep);
            assert(picked == front.filter(keep));
            assert forall|k: int| 0 <= k < before.len() implies 0 <= #[trigger] before[k]
                < rows.len() && picked[k] == rows[before[k]] && keep(rows[before[k]]) by {
                assert(front[before[k]] == rows[before[k]]);
            }
            assert forall|i: int| 0 <= i < rows.len() && keep(#[trigger] rows[i]) implies exists|
                k: int,
            |
                0 <= k < before.len() && #[trigger] before[k] == i by {
                assert(i < last);
                assert(keep(front[i]));
            }
            assert(selects(rows, keep, picked, before));
        }
    }
}

} // verus!
