//! What project setup and self-update decide before they touch a file: how
//! an agent's rules file is brought up to date, and which release asset
//! belongs to a platform.

use vstd::prelude::*;
use vstd::string::*;
use crate::text::{
    chars_of, contains_text, is_white_space, opt_str_text, string_of, text_contains, text_eq,
    trail, trail_is, white_space,
};

verus! {

/// The heading by which a rules file is known to hold the instructions.
pub const RULES_HEADING: &'static str = "## Task Management";

/// The instructions that a rules file gets.
pub const TSK_INSTRUCTIONS: &'static str =
    r#"## Task Management

This project uses `tsk` for task tracking.

### Task Commands
- `tsk create "<title>" "<description>"` — create task, returns ID
- `tsk create "<title>" "<desc>" --parent <id>` — create subtask
- `tsk create "<title>" "<desc>" --depend <id>` — task with dependency
- `tsk list` — show pending tasks
- `tsk list --inprogress` — show in progress tasks
- `tsk list --all` — show all tasks
- `tsk list --parent <id>` — show subtasks only
- `tsk show <id>` — task details
- `tsk start <id>` — mark as in progress
- `tsk done <id>` — mark complete
- `tsk remove <id>` — delete task

### Memory Commands (project knowledge)
- `tsk m "<text>"` — store important info
- `tsk m "<text>" --tags api,auth` — store with tags
- `tsk m list` — show all memories
- `tsk m list --tag api` — filter by tag
- `tsk m search "<query>"` — search memories
- `tsk m show <id>` — show full memory
- `tsk m rm <id>` — remove memory

### When to use
- Tasks: track multi-step work, user requests task tracking
- Memory: store project decisions, important context, architecture notes

### Output format
`abc123  [ ]  Pending task ^parent @dependency`
`abc123  [>]  In progress task`
`abc123  [x]  Done task`
"#;

/// What is done with an agent's rules file.
#[derive(Debug, PartialEq, Eq)]
pub enum RulesUpdate {
    /// There is no file: it is created with this content.
    Create { content: String },
    /// The file lacks the instructions: it is rewritten with this content.
    Append { content: String },
    /// The file holds the instructions already: it is left alone.
    Skip,
}

/// An update as a mathematical value.
pub enum RulesUpdateView {
    Create { content: Seq<char> },
    Append { content: Seq<char> },
    Skip,
}

impl View for RulesUpdate {
    type V = RulesUpdateView;

    open spec fn view(&self) -> RulesUpdateView {
        match *self {
            RulesUpdate::Create { content } => RulesUpdateView::Create { content: content@ },
            RulesUpdate::Append { content } => RulesUpdateView::Append { content: content@ },
            RulesUpdate::Skip => RulesUpdateView::Skip,
        }
    }
}

/// A text without the white space at its end.
pub open spec fn trimmed_end(text: Seq<char>) -> Seq<char> {
    text.take(text.len() - trail(text))
}

/// The update of a rules file with this content, if it exists: a new file
/// gets the instructions; a file without the heading keeps its content, cut
/// of the white space at its end, and gets the instructions after an empty
/// line; a file with the heading is left alone.
pub open spec fn rules_update(existing: Option<Seq<char>>) -> RulesUpdateView {
    match existing {
        None => RulesUpdateView::Create { content: TSK_INSTRUCTIONS@ },
        Some(text) => if contains_text(text, RULES_HEADING@) {
            RulesUpdateView::Skip
        } else {
            RulesUpdateView::Append {
                content: trimmed_end(text) + "\n\n"@ + TSK_INSTRUCTIONS@,
            }
        },
    }
}

/// Removes the white space at the end of a text.
pub fn trim_end_text(text: &str) -> (kept: String)
    ensures
        kept@ == trimmed_end(text@),
{
    let chars = chars_of(text);
    let len: usize = chars.len();
    let mut to: usize = len;
    while to > 0 && is_white_space(chars[to - 1])
        invariant
            chars@ == text@,
            len == chars@.len(),
            to <= len,
            forall|k: int| to <= k < len ==> white_space(#[trigger] text@[k]),
        decreases to,
    {
        to -= 1;
    }
    proof {
        trail_is(text@, len - to);
        assert(text@.subrange(0, to as int) =~= text@.take(to as int));
    }
    string_of(text, 0, to)
}

/// Decides what is done with a rules file from its content, if it exists.
pub fn plan_rules_update(existing: Option<&str>) -> (update: RulesUpdate)
    ensures
        update@ == rules_update(opt_str_text(existing)),
{
    match existing {
        None => RulesUpdate::Create { content: String::from_str(TSK_INSTRUCTIONS) },
        Some(text) => {
            if text_contains(text, RULES_HEADING) {
                RulesUpdate::Skip
            } else {
                let mut content = trim_end_text(text);
                content.append("\n\n");
                content.append(TSK_INSTRUCTIONS);
                RulesUpdate::Append { content }
            }
        },
    }
}

/// The version that a release tag names: the tag without a leading `v`.
pub open spec fn tag_version(tag: Seq<char>) -> Seq<char> {
    if tag.len() > 0 && tag[0] == 'v' {
        tag.skip(1)
    } else {
        tag
    }
}

/// Reads the version from a release tag.
pub fn release_version(tag: &str) -> (version: String)
    ensures
        version@ == tag_version(tag@),
{
    let chars = chars_of(tag);
    if chars.len() > 0 && chars[0] == 'v' {
        assert(tag@.subrange(1, tag@.len() as int) =~= tag@.skip(1));
        string_of(tag, 1, chars.len())
    } else {
        String::from_str(tag)
    }
}

/// The release asset for a platform, or why there is none: releases exist
/// for macOS and Linux on x86_64 and on aarch64.
pub open spec fn asset_name(os: Seq<char>, arch: Seq<char>) -> Result<Seq<char>, Seq<char>> {
    if os != "macos"@ && os != "linux"@ {
        Err("Unsupported OS: "@ + os)
    } else if arch != "x86_64"@ && arch != "aarch64"@ {
        Err("Unsupported architecture: "@ + arch)
    } else {
        let system = if os == "macos"@ {
            "darwin"@
        } else {
            "linux"@
        };
        let machine = if arch == "x86_64"@ {
            "x86_64"@
        } else {
            "arm64"@
        };
        Ok("tsk-"@ + system + "-"@ + machine)
    }
}

/// Names the release asset for a platform.
pub fn release_asset(os: &str, arch: &str) -> (asset: Result<String, String>)
    ensures
        match asset_name(os@, arch@) {
            Ok(name) => asset is Ok && asset->Ok_0@ == name,
            Err(reason) => asset is Err && asset->Err_0@ == reason,
        },
{
    let system = if text_eq(os, "macos") {
        "darwin"
    } else if text_eq(os, "linux") {
        "linux"
    } else {
        let mut reason = String::from_str("Unsupported OS: ");
        reason.append(os);
        return Err(reason);
    };
    let machine = if text_eq(arch, "x86_64") {
        "x86_64"
    } else if text_eq(arch, "aarch64") {
        "arm64"
    } else {
        let mut reason = String::from_str("Unsupported architecture: ");
        reason.append(arch);
        return Err(reason);
    };
    let mut name = String::from_str("tsk-");
    name.append(system);
    name.append("-");
    name.append(machine);
    Ok(name)
}

} // verus!
