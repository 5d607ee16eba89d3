//! Identifiers: the six-character code format, its validation, and the
//! allocator that finds a free code for a new row.

use vstd::prelude::*;
use vstd::string::*;
use rand::Rng;
use crate::error::{StoreError, StoreErrorView};
use crate::text::chars_of;

verus! {

/// How many characters an identifier has.
pub const ID_LENGTH: usize = 6;

/// How many symbols identifiers are drawn from.
pub const ALPHABET_SIZE: usize = 36;

/// How many candidates the allocator tries before it gives up.
pub const MAX_ATTEMPTS: usize = 100;

/// How many identifiers there are: thirty-six to the sixth.
pub const ID_SPACE: u64 = 2_176_782_336;

/// The symbols of an identifier: lower-case letters, then digits.
pub open spec fn alphabet() -> Seq<char> {
    "abcdefghijklmnopqrstuvwxyz0123456789"@
}

/// `c` is a lower-case ASCII letter or an ASCII digit.
pub open spec fn is_id_symbol(c: char) -> bool {
    ('a' <= c && c <= 'z') || ('0' <= c && c <= '9')
}

/// `id` is exactly six identifier symbols.
pub open spec fn valid_id(id: Seq<char>) -> bool {
    &&& id.len() == ID_LENGTH
    &&& forall|i: int| 0 <= i < id.len() ==> is_id_symbol(#[trigger] id[i])
}

/// A candidate may be handed out: it is well formed and no row has it.
pub open spec fn acceptable(taken: Seq<Seq<char>>, candidate: Seq<char>) -> bool {
    valid_id(candidate) && !taken.contains(candidate)
}

/// How many of the candidates the allocator looks at.
pub open spec fn attempts(candidates: int) -> int {
    if candidates < MAX_ATTEMPTS {
        candidates
    } else {
        MAX_ATTEMPTS as int
    }
}

/// Candidate `at` is the one to hand out: it is among those looked at, it is
/// acceptable, and no earlier candidate is.
pub open spec fn is_pick(taken: Seq<Seq<char>>, candidates: Seq<Seq<char>>, at: int) -> bool {
    &&& 0 <= at < attempts(candidates.len() as int)
    &&& acceptable(taken, candidates[at])
    &&& forall|j: int| 0 <= j < at ==> !acceptable(taken, #[trigger] candidates[j])
}

/// The identifier that the allocator hands out from these candidates, if any.
pub open spec fn picked(taken: Seq<Seq<char>>, candidates: Seq<Seq<char>>) -> Option<Seq<char>> {
    if exists|at: int| is_pick(taken, candidates, at) {
        Some(candidates[choose|at: int| is_pick(taken, candidates, at)])
    } else {
        None
    }
}

/// There is at most one candidate to hand out.
pub proof fn pick_is_picked(taken: Seq<Seq<char>>, candidates: Seq<Seq<char>>, at: int)
    requires
        is_pick(taken, candidates, at),
    ensures
        picked(taken, candidates) == Some(candidates[at]),
{
    let chosen = choose|i: int| is_pick(taken, candidates, i);
    assert(is_pick(taken, candidates, chosen));
    if chosen < at {
        assert(!acceptable(taken, candidates[chosen]));
    }
    if at < chosen {
        assert(!acceptable(taken, candidates[at]));
    }
}

/// What the allocator hands out is well formed and free.
pub proof fn picked_is_acceptable(taken: Seq<Seq<char>>, candidates: Seq<Seq<char>>)
    ensures
        picked(taken, candidates) matches Some(id) ==> acceptable(taken, id),
{
    if exists|at: int| is_pick(taken, candidates, at) {
        let chosen = choose|i: int| is_pick(taken, candidates, i);
        assert(is_pick(taken, candidates, chosen));
    }
}

/// What the allocator hands out is one of the candidates.
pub proof fn picked_is_a_candidate(taken: Seq<Seq<char>>, candidates: Seq<Seq<char>>)
    ensures
        picked(taken, candidates) matches Some(id) ==> candidates.contains(id),
{
    if exists|at: int| is_pick(taken, candidates, at) {
        let chosen = choose|i: int| is_pick(taken, candidates, i);
        assert(is_pick(taken, candidates, chosen));
    }
}

/// A table whose rows are found by identifier.
pub trait IdTable {
    /// The identifiers of the rows, in the table's order.
    spec fn ids(&self) -> Seq<Seq<char>>;

    /// Whether some row has this identifier.
    fn holds(&self, id: &str) -> (found: bool)
        ensures
            found == self.ids().contains(id@),
    ;
}

/// Every symbol of the alphabet is an identifier symbol, and there are
/// thirty-six of them.
pub proof fn alphabet_is_symbols()
    ensures
        alphabet().len() == ALPHABET_SIZE,
        forall|i: int| 0 <= i < alphabet().len() ==> is_id_symbol(#[trigger] alphabet()[i]),
        forall|i: int| 0 <= i < alphabet().len() ==> (#[trigger] alphabet()[i] as u32) < 128,
{
    reveal_strlit("abcdefghijklmnopqrstuvwxyz0123456789");
}

fn is_symbol(c: char) -> (yes: bool)
    ensures
        yes == is_id_symbol(c),
{
    (c >= 'a' && c <= 'z') || (c >= '0' && c <= '9')
}

/// Whether `id` has the identifier format.
pub fn is_valid_id(id: &str) -> (valid: bool)
    ensures
        valid == valid_id(id@),
{
    let chars = chars_of(id);
    if chars.len() != ID_LENGTH {
        return false;
    }
    let mut i: usize = 0;
    while i < chars.len()
        invariant
            chars@ == id@,
            i <= chars@.len(),
            forall|k: int| 0 <= k < i ==> is_id_symbol(#[trigger] id@[k]),
        decreases chars@.len() - i,
    {
        if !is_symbol(chars[i]) {
            return false;
        }
        i += 1;
    }
    true
}

/// Accepts an identifier of the right format and rejects every other text.
pub fn validate_id(id: &str) -> (checked: Result<(), StoreError>)
    ensures
        valid_id(id@) ==> checked is Ok,
        !valid_id(id@) ==> checked is Err && checked->Err_0@ == (StoreErrorView::InvalidId {
            id: id@,
        }),
{
    if is_valid_id(id) {
        Ok(())
    } else {
        Err(StoreError::InvalidId { id: String::from_str(id) })
    }
}

/// Calls `rand::Rng::gen_range` on the generator of `rand::thread_rng` with
/// the half-open range from zero to `bound`. The range is not empty, as the
/// call demands, and what it returns lies in the range; which number it is,
/// is left open.
#[verifier::external_body]
fn random_below(bound: usize) -> (pick: usize)
    requires
        bound > 0,
    ensures
        pick < bound,
{
    rand::thread_rng().gen_range(0..bound)
}

/// The alphabet's symbol number `pick`, as a string slice.
fn symbol_str(pick: usize) -> (symbol: &'static str)
    requires
        pick < ALPHABET_SIZE,
    ensures
        symbol@ == seq![alphabet()[pick as int]],
{
    let symbols = "abcdefghijklmnopqrstuvwxyz0123456789";
    proof {
        alphabet_is_symbols();
        assert(symbols.is_ascii()) by {
            assert forall|i: int| 0 <= i < symbols@.len() implies (symbols@[i] as u32) < 128 by {
                assert(symbols@[i] == alphabet()[i]);
            }
        }
    }
    let symbol = symbols.substring_ascii(pick, pick + 1);
    assert(symbol@ =~= seq![alphabet()[pick as int]]);
    symbol
}

/// The identifier spelled by six picks from the alphabet.
pub open spec fn spelled(picks: Seq<usize>) -> Seq<char> {
    Seq::new(picks.len(), |i: int| alphabet()[picks[i] as int])
}

/// Spells an identifier from six picks, each below the alphabet's size.
/// Returns `None` for any other list of picks.
pub fn id_from_picks(picks: &Vec<usize>) -> (id: Option<String>)
    ensures
        match id {
            Some(text) => {
                &&& picks@.len() == ID_LENGTH
                &&& forall|i: int| 0 <= i < picks@.len() ==> picks@[i] < ALPHABET_SIZE
                &&& text@ == spelled(picks@)
                &&& valid_id(text@)
            },
            None => picks@.len() != ID_LENGTH || exists|i: int|
                0 <= i < picks@.len() && picks@[i] >= ALPHABET_SIZE,
        },
{
    if picks.len() != ID_LENGTH {
        return None;
    }
    let mut text = String::new();
    let mut n: usize = 0;
    while n < picks.len()
        invariant
            n <= picks@.len(),
            text@.len() == n,
            forall|i: int| 0 <= i < n ==> picks@[i] < ALPHABET_SIZE,
            forall|i: int| 0 <= i < n ==> text@[i] == alphabet()[picks@[i] as int],
        decreases picks@.len() - n,
    {
        let pick = picks[n];
        if pick >= ALPHABET_SIZE {
            return None;
        }
        text.append(symbol_str(pick));
        n += 1;
    }
    proof {
        alphabet_is_symbols();
        assert(text@ =~= spelled(picks@));
    }
    Some(text)
}

/// Draws one candidate identifier: six symbols, each picked at random.
fn draw_candidate() -> (id: String)
    ensures
        valid_id(id@),
{
    let mut picks: Vec<usize> = Vec::new();
    let mut n: usize = 0;
    while n < ID_LENGTH
        invariant
            n <= ID_LENGTH,
            picks@.len() == n,
            forall|i: int| 0 <= i < n ==> picks@[i] < ALPHABET_SIZE,
        decreases ID_LENGTH - n,
    {
        picks.push(random_below(ALPHABET_SIZE));
        n += 1;
    }
    id_from_picks(&picks).unwrap()
}

/// Draws `count` candidate identifiers.
pub fn draw_candidates(count: usize) -> (candidates: Vec<String>)
    ensures
        candidates@.len() == count,
        forall|i: int| 0 <= i < candidates@.len() ==> valid_id(#[trigger] candidates@[i]@),
{
    let mut candidates: Vec<String> = Vec::new();
    let mut n: usize = 0;
    while n < count
        invariant
            n <= count,
            candidates@.len() == n,
            forall|i: int| 0 <= i < candidates@.len() ==> valid_id(#[trigger] candidates@[i]@),
        decreases count - n,
    {
        candidates.push(draw_candidate());
        n += 1;
    }
    candidates
}

/// Hands out the first of the candidates that is well formed and that no row
/// of the table has. Only the first hundred candidates are looked at; when
/// none of them can be handed out the allocator is exhausted.
pub fn pick_free_id<T: IdTable>(table: &T, candidates: &Vec<String>) -> (allocated: Result<
    String,
    StoreError,
>)
    ensures
        match picked(table.ids(), candidates.deep_view()) {
            Some(id) => allocated is Ok && allocated->Ok_0@ == id,
            None => allocated is Err && allocated->Err_0@ == StoreErrorView::IdsExhausted,
        },
{
    let limit: usize = if candidates.len() < MAX_ATTEMPTS {
        candidates.len()
    } else {
        MAX_ATTEMPTS
    };
    let mut i: usize = 0;
    while i < limit
        invariant
            i <= limit,
            limit == attempts(candidates@.len() as int),
            forall|j: int|
                0 <= j < i ==> !acceptable(table.ids(), #[trigger] candidates.deep_view()[j]),
        decreases limit - i,
    {
        let candidate = &candidates[i];
        assert(candidates.deep_view()[i as int] == candidate@);
        if is_valid_id(candidate.as_str()) && !table.holds(candidate.as_str()) {
            proof {
                pick_is_picked(table.ids(), candidates.deep_view(), i as int);
            }
            return Ok(candidate.clone());
        }
        i += 1;
    }
    Err(StoreError::IdsExhausted)
}

/// In a table without rows the first well-formed candidate is handed out.
pub proof fn empty_table_has_room(taken: Seq<Seq<char>>, candidates: Seq<Seq<char>>)
    requires
        taken.len() == 0,
        candidates.len() > 0,
        forall|i: int| 0 <= i < candidates.len() ==> valid_id(#[trigger] candidates[i]),
    ensures
        picked(taken, candidates) == Some(candidates[0]),
{
    assert(is_pick(taken, candidates, 0));
    pick_is_picked(taken, candidates, 0);
}

/// Allocates an identifier for a new row of `table`: a hundred candidates are
/// drawn at random and the first free one is handed out. The identifier is
/// not reserved; the caller inserts the row.
///
/// Termination is bounded, success is probabilistic: the candidates come
/// from a space of `ID_SPACE` identifiers, so in a table of `n` rows a
/// candidate is taken with probability `n / ID_SPACE`, and the allocator is
/// exhausted only if that happens a hundred times in a row. In a table
/// without rows every candidate is free and the allocator succeeds.
pub fn generate_id<T: IdTable>(table: &T) -> (allocated: Result<String, StoreError>)
    ensures
        match allocated {
            Ok(id) => valid_id(id@) && !table.ids().contains(id@),
            Err(e) => e@ == StoreErrorView::IdsExhausted,
        },
        table.ids().len() == 0 ==> allocated is Ok,
{
    let candidates = draw_candidates(MAX_ATTEMPTS);
    proof {
        picked_is_acceptable(table.ids(), candidates.deep_view());
        if table.ids().len() == 0 {
            assert forall|i: int| 0 <= i < candidates.deep_view().len() implies valid_id(
                #[trigger] candidates.deep_view()[i],
            ) by {
                assert(candidates.deep_view()[i] == candidates@[i]@);
            }
            empty_table_has_room(table.ids(), candidates.deep_view());
        }
    }
    pick_free_id(table, &candidates)
}

} // verus!
