//! Tool calls as typed records. A call arrives as a tool name and a bundle
//! of arguments; before it runs, the bundle is held against the arguments
//! that the catalogue declares for the tool, and what passes is read into
//! the record of the tool.

use vstd::prelude::*;
use vstd::string::*;
use serde_json::Value;
use crate::catalogue::{catalogue, get_tools, PropertyKind, PropertyView, Tool, ToolView};
use crate::json::{
    as_count, as_flag, as_text, count_under, flag_arg, flag_under, given, is_given,
    json_count, json_flag, json_member, json_text, member, text_arg, text_under,
};
use crate::task::own_opt;
use crate::text::{opt_str_text, opt_text, text_eq};

verus! {

/// Why a bundle of arguments is refused.
#[derive(Debug, PartialEq, Eq)]
pub enum ArgumentError {
    /// A required argument is not given.
    Missing { parameter: String },
    /// An argument is given and is not of the declared type.
    Invalid { parameter: String, expected: PropertyKind },
}

/// A refusal as a mathematical value.
pub enum ArgumentErrorView {
    Missing { parameter: Seq<char> },
    Invalid { parameter: Seq<char>, expected: PropertyKind },
}

impl ArgumentErrorView {
    /// The text shown for a refusal.
    pub open spec fn message(self) -> Seq<char> {
        match self {
            ArgumentErrorView::Missing { parameter } => "Missing required parameter: "@
                + parameter,
            ArgumentErrorView::Invalid { parameter, expected } => "Invalid parameter: "@
                + parameter + " (expected "@ + expected.word() + ")"@,
        }
    }
}

impl View for ArgumentError {
    type V = ArgumentErrorView;

    open spec fn view(&self) -> ArgumentErrorView {
        match *self {
            ArgumentError::Missing { parameter } => ArgumentErrorView::Missing {
                parameter: parameter@,
            },
            ArgumentError::Invalid { parameter, expected } => ArgumentErrorView::Invalid {
                parameter: parameter@,
                expected,
            },
        }
    }
}

impl ArgumentError {
    /// The text shown for this refusal.
    pub fn message(&self) -> (text: String)
        ensures
            text@ == self@.message(),
    {
        match self {
            ArgumentError::Missing { parameter } => {
                let mut text = String::from_str("Missing required parameter: ");
                text.append(parameter.as_str());
                text
            },
            ArgumentError::Invalid { parameter, expected } => {
                let mut text = String::from_str("Invalid parameter: ");
                text.append(parameter.as_str());
                text.append(" (expected ");
                text.append(expected.as_str());
                text.append(")");
                text
            },
        }
    }
}

/// A value is of a declared type: it reads as text, as flag or as count.
pub open spec fn fits(kind: PropertyKind, value: Value) -> bool {
    match kind {
        PropertyKind::Text => json_text(value) is Some,
        PropertyKind::Flag => json_flag(value) is Some,
        PropertyKind::Count => json_count(value) is Some,
    }
}

/// What a bundle does wrong about one declared argument, if anything: a
/// required argument must be given, and an argument that is given must be
/// of the declared type.
pub open spec fn violation(property: PropertyView, required: Seq<Seq<char>>, args: Value) -> Option<
    ArgumentErrorView,
> {
    if !given(args, property.name) {
        if required.contains(property.name) {
            Some(ArgumentErrorView::Missing { parameter: property.name })
        } else {
            None
        }
    } else if !fits(property.kind, json_member(args, property.name)) {
        Some(ArgumentErrorView::Invalid { parameter: property.name, expected: property.kind })
    } else {
        None
    }
}

/// The first thing that a bundle does wrong about the declared arguments,
/// taken in the order of their declaration.
pub open spec fn first_violation(
    properties: Seq<PropertyView>,
    required: Seq<Seq<char>>,
    args: Value,
) -> Option<ArgumentErrorView>
    decreases properties.len(),
{
    if properties.len() == 0 {
        None
    } else {
        match violation(properties[0], required, args) {
            Some(e) => Some(e),
            None => first_violation(properties.drop_first(), required, args),
        }
    }
}

/// Why a tool refuses a bundle, if it does.
pub open spec fn schema_error(tool: ToolView, args: Value) -> Option<ArgumentErrorView> {
    first_violation(tool.properties, tool.required, args)
}

/// A bundle that a tool does not refuse does nothing wrong about any of the
/// declared arguments.
pub proof fn accepted_everywhere(
    properties: Seq<PropertyView>,
    required: Seq<Seq<char>>,
    args: Value,
)
    requires
        first_violation(properties, required, args) is None,
    ensures
        forall|i: int|
            0 <= i < properties.len() ==> violation(#[trigger] properties[i], required, args)
                is None,
    decreases properties.len(),
{
    if properties.len() > 0 {
        let rest = properties.drop_first();
        accepted_everywhere(rest, required, args);
        assert forall|i: int| 0 <= i < properties.len() implies violation(
            #[trigger] properties[i],
            required,
            args,
        ) is None by {
            if i > 0 {
                assert(properties[i] == rest[i - 1]);
            }
        }
    }
}

fn is_required(required: &Vec<String>, name: &str) -> (yes: bool)
    ensures
        yes == required.deep_view().contains(name@),
{
    let mut i: usize = 0;
    while i < required.len()
        invariant
            i <= required@.len(),
            forall|j: int| 0 <= j < i ==> required.deep_view()[j] != name@,
        decreases required@.len() - i,
    {
        assert(required.deep_view()[i as int] == required@[i as int]@);
        if text_eq(required[i].as_str(), name) {
            return true;
        }
        i += 1;
    }
    false
}

fn value_fits(kind: PropertyKind, value: &Value) -> (yes: bool)
    ensures
        yes == fits(kind, *value),
{
    match kind {
        PropertyKind::Text => as_text(value).is_some(),
        PropertyKind::Flag => as_flag(value).is_some(),
        PropertyKind::Count => as_count(value).is_some(),
    }
}

/// Holds a bundle against the arguments that a tool declares.
pub fn validate_arguments(tool: &Tool, args: &Value) -> (checked: Result<(), ArgumentError>)
    ensures
        match schema_error(tool@, *args) {
            Some(e) => checked is Err && checked->Err_0@ == e,
            None => checked is Ok,
        },
{
    let properties = &tool.input_schema.properties;
    let required = &tool.input_schema.required;
    let ghost declared = properties.deep_view();
    let ghost needed = required.deep_view();
    let mut i: usize = 0;
    assert(declared.skip(0) =~= declared);
    while i < properties.len()
        invariant
            i <= properties@.len(),
            declared == properties.deep_view(),
            needed == required.deep_view(),
            tool@.properties == declared,
            tool@.required == needed,
            first_violation(declared, needed, *args) == first_violation(
                declared.skip(i as int),
                needed,
                *args,
            ),
        decreases properties@.len() - i,
    {
        let property = &properties[i];
        proof {
            assert(declared.skip(i as int)[0] == property@);
            assert(declared.skip(i as int).drop_first() =~= declared.skip(i + 1));
        }
        let name = property.name.as_str();
        if !is_given(args, name) {
            if is_required(required, name) {
                return Err(ArgumentError::Missing { parameter: property.name.clone() });
            }
        } else if !value_fits(property.kind, member(args, name)) {
            return Err(
                ArgumentError::Invalid {
                    parameter: property.name.clone(),
                    expected: property.kind,
                },
            );
        }
        i += 1;
    }
    Ok(())
}

/// A call of a store tool, with its arguments read.
#[derive(Debug, PartialEq, Eq)]
pub enum ToolCall {
    Create { title: String, description: String, parent: Option<String>, depend: Option<String> },
    List { inprogress: bool, all: bool, parent: Option<String> },
    Show { id: String },
    Update { id: String, description: String },
    Start { id: String },
    Done { id: String },
    Remove { id: String },
    MemoryCreate { content: String, tags: Option<String> },
    MemoryList { tag: Option<String>, last: Option<usize> },
    MemoryShow { id: String },
    MemorySearch { query: String },
    MemoryRemove { id: String },
}

/// A call as a mathematical value.
pub enum ToolCallView {
    Create {
        title: Seq<char>,
        description: Seq<char>,
        parent: Option<Seq<char>>,
        depend: Option<Seq<char>>,
    },
    List { inprogress: bool, all: bool, parent: Option<Seq<char>> },
    Show { id: Seq<char> },
    Update { id: Seq<char>, description: Seq<char> },
    Start { id: Seq<char> },
    Done { id: Seq<char> },
    Remove { id: Seq<char> },
    MemoryCreate { content: Seq<char>, tags: Option<Seq<char>> },
    MemoryList { tag: Option<Seq<char>>, last: Option<usize> },
    MemoryShow { id: Seq<char> },
    MemorySearch { query: Seq<char> },
    MemoryRemove { id: Seq<char> },
}

impl View for ToolCall {
    type V = ToolCallView;

    open spec fn view(&self) -> ToolCallView {
        match *self {
            ToolCall::Create { title, description, parent, depend } => ToolCallView::Create {
                title: title@,
                description: description@,
                parent: opt_text(parent),
                depend: opt_text(depend),
            },
            ToolCall::List { inprogress, all, parent } => ToolCallView::List {
                inprogress,
                all,
                parent: opt_text(parent),
            },
            ToolCall::Show { id } => ToolCallView::Show { id: id@ },
            ToolCall::Update { id, description } => ToolCallView::Update {
                id: id@,
                description: description@,
            },
            ToolCall::Start { id } => ToolCallView::Start { id: id@ },
            ToolCall::Done { id } => ToolCallView::Done { id: id@ },
            ToolCall::Remove { id } => ToolCallView::Remove { id: id@ },
            ToolCall::MemoryCreate { content, tags } => ToolCallView::MemoryCreate {
                content: content@,
                tags: opt_text(tags),
            },
            ToolCall::MemoryList { tag, last } => ToolCallView::MemoryList {
                tag: opt_text(tag),
                last,
            },
            ToolCall::MemoryShow { id } => ToolCallView::MemoryShow { id: id@ },
            ToolCall::MemorySearch { query } => ToolCallView::MemorySearch { query: query@ },
            ToolCall::MemoryRemove { id } => ToolCallView::MemoryRemove { id: id@ },
        }
    }
}

/// The place of a store tool in the catalogue, by its name.
pub open spec fn place(name: Seq<char>) -> Option<int> {
    if name == "create"@ {
        Some(1)
    } else if name == "list"@ {
        Some(2)
    } else if name == "show"@ {
        Some(3)
    } else if name == "update"@ {
        Some(4)
    } else if name == "start"@ {
        Some(5)
    } else if name == "done"@ {
        Some(6)
    } else if name == "remove"@ {
        Some(7)
    } else if name == "memory_create"@ {
        Some(8)
    } else if name == "memory_list"@ {
        Some(9)
    } else if name == "memory_show"@ {
        Some(10)
    } else if name == "memory_search"@ {
        Some(11)
    } else if name == "memory_remove"@ {
        Some(12)
    } else {
        None
    }
}

/// The text that a bundle gives under `key`; empty where it gives none.
pub open spec fn text_of(args: Value, key: Seq<char>) -> Seq<char> {
    match text_under(args, key) {
        Some(text) => text,
        None => Seq::<char>::empty(),
    }
}

/// The bound that a bundle puts on a listing of notes.
pub open spec fn bound_under(args: Value) -> Option<usize> {
    match count_under(args, "last"@) {
        Some(n) => Some(n as usize),
        None => None,
    }
}

/// The record of the tool at a place of the catalogue, read from a bundle.
pub open spec fn record(at: int, args: Value) -> ToolCallView {
    if at == 1 {
        ToolCallView::Create {
            title: text_of(args, "title"@),
            description: text_of(args, "description"@),
            parent: text_under(args, "parent"@),
            depend: text_under(args, "depend"@),
        }
    } else if at == 2 {
        ToolCallView::List {
            inprogress: flag_under(args, "inprogress"@) == Some(true),
            all: flag_under(args, "all"@) == Some(true),
            parent: text_under(args, "parent"@),
        }
    } else if at == 3 {
        ToolCallView::Show { id: text_of(args, "id"@) }
    } else if at == 4 {
        ToolCallView::Update {
            id: text_of(args, "id"@),
            description: text_of(args, "description"@),
        }
    } else if at == 5 {
        ToolCallView::Start { id: text_of(args, "id"@) }
    } else if at == 6 {
        ToolCallView::Done { id: text_of(args, "id"@) }
    } else if at == 7 {
        ToolCallView::Remove { id: text_of(args, "id"@) }
    } else if at == 8 {
        ToolCallView::MemoryCreate {
            content: text_of(args, "content"@),
            tags: text_under(args, "tags"@),
        }
    } else if at == 9 {
        ToolCallView::MemoryList { tag: text_under(args, "tag"@), last: bound_under(args) }
    } else if at == 10 {
        ToolCallView::MemoryShow { id: text_of(args, "id"@) }
    } else if at == 11 {
        ToolCallView::MemorySearch { query: text_of(args, "query"@) }
    } else {
        ToolCallView::MemoryRemove { id: text_of(args, "id"@) }
    }
}

/// What comes of reading a call: no store tool of this name, a bundle that
/// the tool refuses, or the record of the call.
#[derive(Debug, PartialEq, Eq)]
pub enum Reading {
    UnknownTool,
    Refused(ArgumentError),
    Call(ToolCall),
}

/// What reading a call must come to. The bundle is held against what the
/// catalogue declares for the tool at its place.
pub open spec fn read(name: Seq<char>, args: Value, reading: Reading) -> bool {
    match place(name) {
        None => reading is UnknownTool,
        Some(at) => match schema_error(catalogue()[at], args) {
            Some(e) => reading matches Reading::Refused(refusal) && refusal@ == e,
            None => reading matches Reading::Call(call) && call@ == record(at, args),
        },
    }
}

/// A required text: after validation it is there.
fn required_text(tool: &Tool, args: &Value, key: &str) -> (text: String)
    requires
        schema_error(tool@, *args) is None,
        exists|i: int|
            0 <= i < tool@.properties.len() && (#[trigger] tool@.properties[i]).name == key@
                && tool@.properties[i].kind == PropertyKind::Text,
        tool@.required.contains(key@),
    ensures
        text@ == text_of(*args, key@),
        text_under(*args, key@) is Some,
{
    proof {
        accepted_everywhere(tool@.properties, tool@.required, *args);
        let i = choose|i: int|
            0 <= i < tool@.properties.len() && (#[trigger] tool@.properties[i]).name == key@
                && tool@.properties[i].kind == PropertyKind::Text;
        assert(violation(tool@.properties[i], tool@.required, *args) is None);
    }
    String::from_str(text_arg(args, key).unwrap())
}

/// The bound that a bundle puts on a listing of notes.
pub fn last_arg(args: &Value) -> (last: Option<usize>)
    ensures
        last == bound_under(*args),
{
    match as_count(member(args, "last")) {
        Some(n) => Some(n as usize),
        None => None,
    }
}

/// Reads a call of a store tool: finds the tool by its name, holds the
/// bundle against the arguments that the catalogue declares for it, and
/// reads the arguments into the tool's record.
pub fn read_call(name: &str, args: &Value) -> (reading: Reading)
    ensures
        read(name@, *args, reading),
{
    let tools = get_tools();
    let at: usize = if text_eq(name, "create") {
        1
    } else if text_eq(name, "list") {
        2
    } else if text_eq(name, "show") {
        3
    } else if text_eq(name, "update") {
        4
    } else if text_eq(name, "start") {
        5
    } else if text_eq(name, "done") {
        6
    } else if text_eq(name, "remove") {
        7
    } else if text_eq(name, "memory_create") {
        8
    } else if text_eq(name, "memory_list") {
        9
    } else if text_eq(name, "memory_show") {
        10
    } else if text_eq(name, "memory_search") {
        11
    } else if text_eq(name, "memory_remove") {
        12
    } else {
        return Reading::UnknownTool;
    };
    assert(place(name@) == Some(at as int));
    assert(tools.deep_view().len() == 13);
    let tool = &tools[at];
    assert(tool@ == catalogue()[at as int]);
    if let Err(refusal) = validate_arguments(tool, args) {
        return Reading::Refused(refusal);
    }
    let call = if at == 1 {
        assert(tool@.properties[0].name == "title"@);
        assert(tool@.properties[1].name == "description"@);
        assert(tool@.required[0] == "title"@);
        assert(tool@.required[1] == "description"@);
        ToolCall::Create {
            title: required_text(tool, args, "title"),
            description: required_text(tool, args, "description"),
            parent: own_opt(text_arg(args, "parent")),
            depend: own_opt(text_arg(args, "depend")),
        }
    } else if at == 2 {
        ToolCall::List {
            inprogress: flag_arg(args, "inprogress"),
            all: flag_arg(args, "all"),
            parent: own_opt(text_arg(args, "parent")),
        }
    } else if at == 4 {
        assert(tool@.properties[0].name == "id"@);
        assert(tool@.properties[1].name == "description"@);
        assert(tool@.required[0] == "id"@);
        assert(tool@.required[1] == "description"@);
        ToolCall::Update {
            id: required_text(tool, args, "id"),
            description: required_text(tool, args, "description"),
        }
    } else if at == 8 {
        assert(tool@.properties[0].name == "content"@);
        assert(tool@.required[0] == "content"@);
        ToolCall::MemoryCreate {
            content: required_text(tool, args, "content"),
            tags: own_opt(text_arg(args, "tags")),
        }
    } else if at == 9 {
        ToolCall::MemoryList { tag: own_opt(text_arg(args, "tag")), last: last_arg(args) }
    } else if at == 11 {
        assert(tool@.properties[0].name == "query"@);
        assert(tool@.required[0] == "query"@);
        ToolCall::MemorySearch { query: required_text(tool, args, "query") }
    } else {
        assert(tool@.properties[0].name == "id"@);
        assert(tool@.required[0] == "id"@);
        let id = required_text(tool, args, "id");
        if at == 3 {
            ToolCall::Show { id }
        } else if at == 5 {
            ToolCall::Start { id }
        } else if at == 6 {
            ToolCall::Done { id }
        } else if at == 7 {
            ToolCall::Remove { id }
        } else if at == 10 {
            ToolCall::MemoryShow { id }
        } else {
            ToolCall::MemoryRemove { id }
        }
    };
    Reading::Call(call)
}

} // verus!
