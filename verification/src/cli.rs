//! What the command line shows and reads beyond the stores: the one-line
//! forms of tasks and notes, and the list of agents named by `--rules`.

use vstd::prelude::*;
use vstd::string::*;
use crate::memory::{Memory, MemoryView};
use crate::task::{Task, TaskSummary, TaskSummaryView, TaskView};
use crate::text::{chars_of, string_of, text_eq, trim_text, trimmed};

verus! {

/// How many characters of a note's content a listing shows in full.
pub const PREVIEW_LENGTH: usize = 50;

/// The preview of a text: the text itself where it has at most `max_len`
/// characters, else its first fifteen characters, an ellipsis, and its last
/// five.
pub open spec fn preview(text: Seq<char>, max_len: int) -> Seq<char> {
    if text.len() <= max_len {
        text
    } else {
        let head = if text.len() < 15 {
            text.len() as int
        } else {
            15
        };
        let tail = if text.len() < 5 {
            0
        } else {
            text.len() - 5
        };
        text.take(head) + "..."@ + text.skip(tail)
    }
}

/// Shortens a text for a one-line listing.
pub fn truncate_content(s: &str, max_len: usize) -> (shown: String)
    ensures
        shown@ == preview(s@, max_len as int),
{
    let len: usize = s.unicode_len();
    if len <= max_len {
        String::from_str(s)
    } else {
        let head: usize = if len < 15 {
            len
        } else {
            15
        };
        let tail: usize = if len < 5 {
            0
        } else {
            len - 5
        };
        let mut shown = string_of(s, 0, head);
        shown.append("...");
        let last = string_of(s, tail, len);
        shown.append(last.as_str());
        assert(s@.subrange(0, head as int) =~= s@.take(head as int));
        assert(s@.subrange(tail as int, len as int) =~= s@.skip(tail as int));
        shown
    }
}

/// The line of a task in a listing: identifier, status mark, title, and the
/// parent and dependency where the task has them.
pub open spec fn task_line_text(task: TaskSummaryView) -> Seq<char> {
    let parent = match task.parent_id {
        Some(p) => " ^"@ + p,
        None => Seq::<char>::empty(),
    };
    let depend = match task.depend_id {
        Some(d) => " @"@ + d,
        None => Seq::<char>::empty(),
    };
    task.id + "  ["@ + task.status.mark() + "]  "@ + task.title + parent + depend
}

/// Renders the line of a task in a listing.
pub fn task_line(task: &TaskSummary) -> (line: String)
    ensures
        line@ == task_line_text(task@),
{
    let mut line = task.id.clone();
    line.append("  [");
    line.append(task.status.marker());
    line.append("]  ");
    line.append(task.title.as_str());
    if let Some(p) = &task.parent_id {
        line.append(" ^");
        line.append(p.as_str());
    }
    if let Some(d) = &task.depend_id {
        line.append(" @");
        line.append(d.as_str());
    }
    assert(line@ =~= task_line_text(task@));
    line
}

/// The line of a note in a listing: identifier, preview of the content, and
/// the tags where the note has them.
pub open spec fn memory_line_text(note: MemoryView) -> Seq<char> {
    let tags = match note.tags {
        Some(t) => " ["@ + t + "]"@,
        None => Seq::<char>::empty(),
    };
    "["@ + note.id + "] "@ + preview(note.content, PREVIEW_LENGTH as int) + tags
}

/// Renders the line of a note in a listing.
pub fn memory_line(note: &Memory) -> (line: String)
    ensures
        line@ == memory_line_text(note@),
{
    let mut line = String::from_str("[");
    line.append(note.id.as_str());
    line.append("] ");
    let shown = truncate_content(note.content.as_str(), PREVIEW_LENGTH);
    line.append(shown.as_str());
    if let Some(t) = &note.tags {
        line.append(" [");
        line.append(t.as_str());
        line.append("]");
    }
    assert(line@ =~= memory_line_text(note@));
    line
}

/// The lines that show a task in full: identifier, title and status, then
/// the parent, the dependency and the creation time where the task has
/// them, then an empty line and the description.
pub open spec fn task_card_text(task: TaskView) -> Seq<Seq<char>> {
    let head = seq![
        "ID:          "@ + task.id,
        "Title:       "@ + task.title,
        "Status:      "@ + task.status.name(),
    ];
    let head = match task.parent_id {
        Some(p) => head.push("Parent:      "@ + p),
        None => head,
    };
    let head = match task.depend_id {
        Some(d) => head.push("Depends on:  "@ + d),
        None => head,
    };
    let head = match task.created_at {
        Some(c) => head.push("Created:     "@ + c),
        None => head,
    };
    head.push(Seq::<char>::empty()).push(task.description)
}

/// `label`, then `value`.
fn labelled(label: &str, value: &str) -> (line: String)
    ensures
        line@ == label@ + value@,
{
    let mut line = String::from_str(label);
    line.append(value);
    line
}

/// Renders the lines that show a task in full.
pub fn task_card(task: &Task) -> (lines: Vec<String>)
    ensures
        lines.deep_view() == task_card_text(task@),
{
    let mut lines: Vec<String> = Vec::new();
    lines.push(labelled("ID:          ", task.id.as_str()));
    lines.push(labelled("Title:       ", task.title.as_str()));
    lines.push(labelled("Status:      ", task.status.as_str()));
    if let Some(p) = &task.parent_id {
        lines.push(labelled("Parent:      ", p.as_str()));
    }
    if let Some(d) = &task.depend_id {
        lines.push(labelled("Depends on:  ", d.as_str()));
    }
    if let Some(c) = &task.created_at {
        lines.push(labelled("Created:     ", c.as_str()));
    }
    lines.push(String::new());
    lines.push(task.description.clone());
    assert(lines.deep_view() =~= task_card_text(task@));
    lines
}

/// The lines that show a note in full: identifier, then the tags and the
/// creation time where the note has them, then an empty line and the
/// content.
pub open spec fn memory_card_text(note: MemoryView) -> Seq<Seq<char>> {
    let head = seq!["ID:      "@ + note.id];
    let head = match note.tags {
        Some(t) => head.push("Tags:    "@ + t),
        None => head,
    };
    let head = match note.created_at {
        Some(c) => head.push("Created: "@ + c),
        None => head,
    };
    head.push(Seq::<char>::empty()).push(note.content)
}

/// Renders the lines that show a note in full.
pub fn memory_card(note: &Memory) -> (lines: Vec<String>)
    ensures
        lines.deep_view() == memory_card_text(note@),
{
    let mut lines: Vec<String> = Vec::new();
    lines.push(labelled("ID:      ", note.id.as_str()));
    if let Some(t) = &note.tags {
        lines.push(labelled("Tags:    ", t.as_str()));
    }
    if let Some(c) = &note.created_at {
        lines.push(labelled("Created: ", c.as_str()));
    }
    lines.push(String::new());
    lines.push(note.content.clone());
    assert(lines.deep_view() =~= memory_card_text(note@));
    lines
}

/// What `str::to_lowercase` makes of a text.
pub uninterp spec fn lowered(text: Seq<char>) -> Seq<char>;

/// Calls `str::to_lowercase`: the lowercase equivalent of the text, by the
/// Unicode property Lowercase. The result is a function of the text alone.
#[verifier::external_body]
fn lowercase(text: &str) -> (lower: String)
    ensures
        lower@ == lowered(text@),
{
    text.to_lowercase()
}

/// The position of the first comma of a text, or its length where it has
/// none.
pub open spec fn first_comma(text: Seq<char>) -> int
    decreases text.len(),
{
    if text.len() == 0 || text[0] == ',' {
        0
    } else {
        1 + first_comma(text.drop_first())
    }
}

/// The parts of a text between its commas, in order. A text without a comma
/// is its own single part, and so is the empty text.
pub open spec fn comma_parts(text: Seq<char>) -> Seq<Seq<char>>
    decreases text.len(),
{
    let at = first_comma(text);
    if 0 <= at < text.len() {
        seq![text.take(at)] + comma_parts(text.skip(at + 1))
    } else {
        seq![text]
    }
}

/// The first comma lies where a comma stands and none stands before.
pub proof fn first_comma_is(text: Seq<char>, at: int)
    requires
        0 <= at <= text.len(),
        forall|k: int| 0 <= k < at ==> #[trigger] text[k] != ',',
        at < text.len() ==> text[at] == ',',
    ensures
        first_comma(text) == at,
    decreases at,
{
    if at > 0 {
        let rest = text.drop_first();
        assert forall|k: int| 0 <= k < at - 1 implies #[trigger] rest[k] != ',' by {
            assert(rest[k] == text[k + 1]);
        }
        first_comma_is(rest, at - 1);
    }
}

/// Splits a text at its commas.
pub fn split_commas(text: &str) -> (parts: Vec<String>)
    ensures
        parts.deep_view() == comma_parts(text@),
{
    let chars = chars_of(text);
    let len: usize = chars.len();
    let mut parts: Vec<String> = Vec::new();
    let mut start: usize = 0;
    let mut i: usize = 0;
    assert(text@.skip(0) =~= text@);
    assert(parts.deep_view() + comma_parts(text@.skip(0)) =~= comma_parts(text@));
    while i < len
        invariant
            chars@ == text@,
            len == chars@.len(),
            start <= i <= len,
            forall|k: int| start <= k < i ==> #[trigger] text@[k] != ',',
            parts.deep_view() + comma_parts(text@.skip(start as int)) == comma_parts(text@),
        decreases len - i,
    {
        if chars[i] == ',' {
            let ghost rest = text@.skip(start as int);
            let ghost before = parts.deep_view();
            proof {
                assert forall|k: int| 0 <= k < i - start implies #[trigger] rest[k] != ',' by {
                    assert(rest[k] == text@[start + k]);
                }
                first_comma_is(rest, i - start);
                assert(rest.take(i - start) =~= text@.subrange(start as int, i as int));
                assert(rest.skip(i - start + 1) =~= text@.skip(i + 1));
            }
            parts.push(string_of(text, start, i));
            assert(parts.deep_view() =~= before.push(text@.subrange(start as int, i as int)));
            assert(parts.deep_view() + comma_parts(text@.skip(i + 1)) =~= before + comma_parts(
                rest,
            ));
            start = i + 1;
        }
        i += 1;
    }
    let ghost rest = text@.skip(start as int);
    let ghost before = parts.deep_view();
    proof {
        assert forall|k: int| 0 <= k < rest.len() implies #[trigger] rest[k] != ',' by {
            assert(rest[k] == text@[start + k]);
        }
        first_comma_is(rest, rest.len() as int);
        assert(rest =~= text@.subrange(start as int, len as int));
    }
    parts.push(string_of(text, start, len));
    assert(parts.deep_view() =~= before.push(rest));
    assert(before.push(rest) =~= before + seq![rest]);
    parts
}

/// Row `at` is the first of the table with the name `word`.
pub open spec fn is_agent(agents: Seq<Seq<char>>, word: Seq<char>, at: int) -> bool {
    &&& 0 <= at < agents.len()
    &&& agents[at] == word
    &&& forall|j: int| 0 <= j < at ==> #[trigger] agents[j] != word
}

/// The number of the agent that a word names: its first position in the
/// table of agent names.
pub open spec fn agent_number(agents: Seq<Seq<char>>, word: Seq<char>) -> Option<usize> {
    if exists|at: int| is_agent(agents, word, at) {
        Some((choose|at: int| is_agent(agents, word, at)) as usize)
    } else {
        None
    }
}

/// The agents that the words name, in the order of the words; a word that
/// names no agent is passed over.
pub open spec fn named_agents(agents: Seq<Seq<char>>, words: Seq<Seq<char>>) -> Seq<usize>
    decreases words.len(),
{
    if words.len() == 0 {
        Seq::<usize>::empty()
    } else {
        let before = named_agents(agents, words.drop_last());
        match agent_number(agents, trimmed(words.last())) {
            Some(n) => before.push(n),
            None => before,
        }
    }
}

/// Some word is `all`, once the white space round it is removed.
pub open spec fn names_all(words: Seq<Seq<char>>) -> bool {
    exists|i: int| 0 <= i < words.len() && trimmed(#[trigger] words[i]) == "all"@
}

/// The agents that a rules argument selects from a table of agent names:
/// every agent where one of its comma-separated words is `all`, else those
/// that its words name. Case does not matter.
pub open spec fn selected_agents(agents: Seq<Seq<char>>, rules: Seq<char>) -> Seq<usize> {
    let words = comma_parts(lowered(rules));
    if names_all(words) {
        Seq::new(agents.len(), |i: int| i as usize)
    } else {
        named_agents(agents, words)
    }
}

fn all_agents(count: usize) -> (all: Vec<usize>)
    ensures
        all@ == Seq::new(count as nat, |i: int| i as usize),
{
    let mut all: Vec<usize> = Vec::new();
    let mut i: usize = 0;
    while i < count
        invariant
            i <= count,
            all@ == Seq::new(i as nat, |k: int| k as usize),
        decreases count - i,
    {
        all.push(i);
        assert(all@ =~= Seq::new((i + 1) as nat, |k: int| k as usize));
        i += 1;
    }
    all
}

fn find_agent(agents: &Vec<String>, word: &str) -> (found: Option<usize>)
    ensures
        found == agent_number(agents.deep_view(), word@),
{
    let mut i: usize = 0;
    while i < agents.len()
        invariant
            i <= agents@.len(),
            forall|j: int| 0 <= j < i ==> #[trigger] agents.deep_view()[j] != word@,
        decreases agents@.len() - i,
    {
        assert(agents.deep_view()[i as int] == agents@[i as int]@);
        if text_eq(agents[i].as_str(), word) {
            proof {
                let names = agents.deep_view();
                assert(is_agent(names, word@, i as int));
                let chosen = choose|at: int| is_agent(names, word@, at);
                if chosen < i {
                    assert(names[chosen] != word@);
                }
                if i < chosen {
                    assert(names[i as int] != word@);
                }
            }
            return Some(i);
        }
        i += 1;
    }
    None
}

/// Reads the agents that a rules argument selects from a table of agent
/// names, as positions in the table.
pub fn parse_rules_arg(rules: &str, agents: &Vec<String>) -> (indices: Vec<usize>)
    ensures
        indices@ == selected_agents(agents.deep_view(), rules@),
{
    let lower = lowercase(rules);
    let words = split_commas(lower.as_str());
    let ghost all_words = words.deep_view();
    let ghost names = agents.deep_view();
    let mut indices: Vec<usize> = Vec::new();
    let mut i: usize = 0;
    assert(all_words.take(0) =~= Seq::<Seq<char>>::empty());
    while i < words.len()
        invariant
            i <= words@.len(),
            names == agents.deep_view(),
            all_words == words.deep_view(),
            all_words == comma_parts(lowered(rules@)),
            !names_all(all_words.take(i as int)),
            indices@ == named_agents(names, all_words.take(i as int)),
        decreases words@.len() - i,
    {
        let word = trim_text(words[i].as_str());
        proof {
            assert(all_words[i as int] == words@[i as int]@);
            assert(all_words.take(i + 1).drop_last() =~= all_words.take(i as int));
            assert(all_words.take(i + 1).last() == all_words[i as int]);
        }
        if text_eq(word.as_str(), "all") {
            assert(trimmed(all_words[i as int]) == "all"@);
            return all_agents(agents.len());
        }
        if let Some(n) = find_agent(agents, word.as_str()) {
            indices.push(n);
        }
        proof {
            let seen = all_words.take(i as int);
            let next = all_words.take(i + 1);
            if names_all(next) {
                let k = choose|k: int| 0 <= k < next.len() && trimmed(#[trigger] next[k]) == "all"@;
                if k < i {
                    assert(trimmed(seen[k]) == "all"@);
                }
            }
        }
        i += 1;
    }
    assert(all_words.take(i as int) =~= all_words);
    indices
}

} // verus!
