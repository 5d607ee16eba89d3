//! Running the tools that an agent invokes: what a tool call answers, how a
//! call is run on the store, and how the dispatcher gets from a tool name
//! and a bundle of arguments to an answer.

use vstd::prelude::*;
use vstd::string::*;
use rusqlite::Connection;
use serde_json::Value;
use crate::calls::{
    place, read_call, record, schema_error, ArgumentError, ArgumentErrorView, Reading, ToolCall,
    ToolCallView,
};
use crate::catalogue::{catalogue, tool_names};
use crate::error::{StoreError, StoreErrorView};
use crate::ident::valid_id;
use crate::mcp::{JsonRpcError, INVALID_PARAMS};
use crate::memory::{fetched_memory, removed_memory, tagged, Memory, MemoryView};
use crate::store::{
    complete_task, create_memory, create_task, get_memory, get_task, list_memories, list_tasks,
    remove_memory, remove_task, search_memories, start_task, update_task,
};
use crate::task::{
    completed, fetched, link_error, listing_error, removed, started, status_filter, updated,
    Task, TaskSummary, TaskSummaryView, TaskView,
};
use crate::text::{contains_text, opt_str_text, opt_text, text_eq};

verus! {

/// The failure text of a tool call on a project without a store.
pub const NOT_INITIALIZED_ERROR: &'static str =
    "Project not initialized. Run 'tsk init' in terminal or use the 'init' tool.";

/// What a tool call answers, before it is put into words.
#[derive(Debug, PartialEq, Eq)]
pub enum ToolReply {
    /// The project was initialized; `path` is where its store lies.
    Initialized { path: String },
    /// A task or a note was created under `id`.
    Created { id: String },
    /// The task or note `id` was changed or removed.
    Changed { id: String },
    /// A listing of tasks.
    Tasks(Vec<TaskSummary>),
    /// One task in full.
    TaskDetails(Task),
    /// A listing of notes.
    Memories(Vec<Memory>),
    /// One note in full.
    MemoryDetails(Memory),
    /// The call failed; `message` says why.
    Failed { message: String },
}

/// An answer as a mathematical value.
pub enum ToolReplyView {
    Initialized { path: Seq<char> },
    Created { id: Seq<char> },
    Changed { id: Seq<char> },
    Tasks(Seq<TaskSummaryView>),
    TaskDetails(TaskView),
    Memories(Seq<MemoryView>),
    MemoryDetails(MemoryView),
    Failed { message: Seq<char> },
}

impl View for ToolReply {
    type V = ToolReplyView;

    open spec fn view(&self) -> ToolReplyView {
        match *self {
            ToolReply::Initialized { path } => ToolReplyView::Initialized { path: path@ },
            ToolReply::Created { id } => ToolReplyView::Created { id: id@ },
            ToolReply::Changed { id } => ToolReplyView::Changed { id: id@ },
            ToolReply::Tasks(entries) => ToolReplyView::Tasks(entries.deep_view()),
            ToolReply::TaskDetails(task) => ToolReplyView::TaskDetails(task@),
            ToolReply::Memories(entries) => ToolReplyView::Memories(entries.deep_view()),
            ToolReply::MemoryDetails(note) => ToolReplyView::MemoryDetails(note@),
            ToolReply::Failed { message } => ToolReplyView::Failed { message: message@ },
        }
    }
}

/// One piece of the content of a tool result.
#[derive(Debug, PartialEq, Eq)]
pub struct ToolContent {
    pub content_type: String,
    pub text: String,
}

/// A tool result as it goes over the wire: text content and, for a failed
/// call, the failure flag.
#[derive(Debug, PartialEq, Eq)]
pub struct ToolResult {
    pub content: Vec<ToolContent>,
    pub is_error: Option<bool>,
}

impl ToolResult {
    /// This result holds exactly one piece of content, of type text, with
    /// these words and this flag.
    pub open spec fn holds(self, words: Seq<char>, flag: Option<bool>) -> bool {
        &&& self.content@.len() == 1
        &&& self.content@[0].content_type@ == "text"@
        &&& self.content@[0].text@ == words
        &&& self.is_error == flag
    }

    /// The result of a call that went well.
    pub fn text(text: String) -> (result: ToolResult)
        ensures
            result.holds(text@, None),
    {
        let mut content: Vec<ToolContent> = Vec::new();
        content.push(ToolContent { content_type: String::from_str("text"), text });
        ToolResult { content, is_error: None }
    }

    /// The result of a call that failed.
    pub fn error(message: String) -> (result: ToolResult)
        ensures
            result.holds(message@, Some(true)),
    {
        let mut content: Vec<ToolContent> = Vec::new();
        content.push(ToolContent { content_type: String::from_str("text"), text: message });
        ToolResult { content, is_error: Some(true) }
    }
}

impl ToolReply {
    /// Whether the call failed.
    pub fn is_failure(&self) -> (failed: bool)
        ensures
            failed == (self@ is Failed),
    {
        match self {
            ToolReply::Failed { .. } => true,
            _ => false,
        }
    }

    /// Puts an answer on the wire. A failure carries its own message and the
    /// failure flag; every other answer carries `rendered`, the text that
    /// the caller made of it, and no flag.
    pub fn into_result(self, rendered: String) -> (result: ToolResult)
        ensures
            match self@ {
                ToolReplyView::Failed { message } => result.holds(message, Some(true)),
                _ => result.holds(rendered@, None),
            },
    {
        match self {
            ToolReply::Failed { message } => ToolResult::error(message),
            _ => ToolResult::text(rendered),
        }
    }
}

/// The failure of a store operation as an answer: its message.
pub fn failed_reply(error: &StoreError) -> (reply: ToolReply)
    ensures
        reply@ == (ToolReplyView::Failed { message: error@.message() }),
{
    ToolReply::Failed { message: error.message() }
}

/// The refusal of a bundle of arguments as an answer: its message.
pub fn refused_reply(refusal: &ArgumentError) -> (reply: ToolReply)
    ensures
        reply@ == refuses(refusal@),
{
    ToolReply::Failed { message: refusal.message() }
}

/// The answer to a creation.
pub fn created_reply(outcome: Result<String, StoreError>) -> (reply: ToolReply)
    ensures
        reply@ == match outcome {
            Ok(id) => ToolReplyView::Created { id: id@ },
            Err(e) => ToolReplyView::Failed { message: e@.message() },
        },
{
    match outcome {
        Ok(id) => ToolReply::Created { id },
        Err(e) => failed_reply(&e),
    }
}

/// The answer to a change of the row `id`.
pub fn changed_reply(outcome: Result<(), StoreError>, id: &str) -> (reply: ToolReply)
    ensures
        reply@ == match outcome {
            Ok(_) => ToolReplyView::Changed { id: id@ },
            Err(e) => ToolReplyView::Failed { message: e@.message() },
        },
{
    match outcome {
        Ok(_) => ToolReply::Changed { id: String::from_str(id) },
        Err(e) => failed_reply(&e),
    }
}

/// The answer to a task listing.
pub fn tasks_reply(outcome: Result<Vec<TaskSummary>, StoreError>) -> (reply: ToolReply)
    ensures
        reply@ == match outcome {
            Ok(entries) => ToolReplyView::Tasks(entries.deep_view()),
            Err(e) => ToolReplyView::Failed { message: e@.message() },
        },
{
    match outcome {
        Ok(entries) => ToolReply::Tasks(entries),
        Err(e) => failed_reply(&e),
    }
}

/// The answer to a task lookup.
pub fn task_reply(outcome: Result<Task, StoreError>) -> (reply: ToolReply)
    ensures
        reply@ == match outcome {
            Ok(task) => ToolReplyView::TaskDetails(task@),
            Err(e) => ToolReplyView::Failed { message: e@.message() },
        },
{
    match outcome {
        Ok(task) => ToolReply::TaskDetails(task),
        Err(e) => failed_reply(&e),
    }
}

/// The answer to a listing or a search of notes.
pub fn memories_reply(outcome: Result<Vec<Memory>, StoreError>) -> (reply: ToolReply)
    ensures
        reply@ == match outcome {
            Ok(entries) => ToolReplyView::Memories(entries.deep_view()),
            Err(e) => ToolReplyView::Failed { message: e@.message() },
        },
{
    match outcome {
        Ok(entries) => ToolReply::Memories(entries),
        Err(e) => failed_reply(&e),
    }
}

/// The answer to a note lookup.
pub fn memory_reply(outcome: Result<Memory, StoreError>) -> (reply: ToolReply)
    ensures
        reply@ == match outcome {
            Ok(note) => ToolReplyView::MemoryDetails(note@),
            Err(e) => ToolReplyView::Failed { message: e@.message() },
        },
{
    match outcome {
        Ok(note) => ToolReply::MemoryDetails(note),
        Err(e) => failed_reply(&e),
    }
}

/// The failure for an identifier that is malformed.
pub open spec fn malformed(id: Seq<char>) -> ToolReplyView {
    ToolReplyView::Failed { message: (StoreErrorView::InvalidId { id }).message() }
}

/// The answer reports this failure of the store: it carries its message.
pub open spec fn reports(reply: ToolReplyView, failure: StoreErrorView) -> bool {
    reply == ToolReplyView::Failed { message: failure.message() }
}

/// The failures that a call can come to: a failure of the database,
/// exhaustion where something is created, and what the rules of the call
/// say of some table of rows.
pub open spec fn may_fail(call: ToolCallView, failure: StoreErrorView) -> bool {
    ||| failure is Storage
    ||| match call {
        ToolCallView::Create { title, description, parent, depend } => failure is IdsExhausted
            || exists|rows: Seq<TaskView>| link_error(rows, parent, depend) == Some(failure),
        ToolCallView::List { inprogress, all, parent } => exists|rows: Seq<TaskView>|
            listing_error(rows, parent) == Some(failure),
        ToolCallView::Show { id } => exists|rows: Seq<TaskView>|
            fetched(rows, id) == Err::<TaskView, StoreErrorView>(failure),
        ToolCallView::Update { id, description } => exists|rows: Seq<TaskView>|
            updated(rows, id, description) == Err::<Seq<TaskView>, StoreErrorView>(failure),
        ToolCallView::Start { id } => exists|rows: Seq<TaskView>|
            started(rows, id) == Err::<Seq<TaskView>, StoreErrorView>(failure),
        ToolCallView::Done { id } => exists|rows: Seq<TaskView>|
            completed(rows, id) == Err::<Seq<TaskView>, StoreErrorView>(failure),
        ToolCallView::Remove { id } => exists|rows: Seq<TaskView>|
            removed(rows, id) == Err::<Seq<TaskView>, StoreErrorView>(failure),
        ToolCallView::MemoryCreate { content, tags } => failure is IdsExhausted,
        ToolCallView::MemoryList { tag, last } => false,
        ToolCallView::MemoryShow { id } => exists|rows: Seq<MemoryView>|
            fetched_memory(rows, id) == Err::<MemoryView, StoreErrorView>(failure),
        ToolCallView::MemorySearch { query } => false,
        ToolCallView::MemoryRemove { id } => exists|rows: Seq<MemoryView>|
            removed_memory(rows, id) == Err::<Seq<MemoryView>, StoreErrorView>(failure),
    }
}

/// What a call answers where it goes well, tool by tool.
pub open spec fn succeeds(call: ToolCallView, reply: ToolReplyView) -> bool {
    match call {
        ToolCallView::Create { title, description, parent, depend } => reply matches ToolReplyView::Created {
            id,
        } && valid_id(id),
        ToolCallView::List { inprogress, all, parent } => reply matches ToolReplyView::Tasks(
            entries,
        ) && forall|k: int|
            0 <= k < entries.len() ==> {
                &&& status_filter(inprogress, all) matches Some(status) ==> (
                #[trigger] entries[k]).status == status
                &&& parent is Some ==> entries[k].parent_id == parent
            },
        ToolCallView::Show { id } => reply matches ToolReplyView::TaskDetails(task) && task.id
            == id,
        ToolCallView::Update { id, description } => reply == (ToolReplyView::Changed { id }),
        ToolCallView::Start { id } => reply == (ToolReplyView::Changed { id }),
        ToolCallView::Done { id } => reply == (ToolReplyView::Changed { id }),
        ToolCallView::Remove { id } => reply == (ToolReplyView::Changed { id }),
        ToolCallView::MemoryCreate { content, tags } => reply matches ToolReplyView::Created {
            id,
        } && valid_id(id),
        ToolCallView::MemoryList { tag, last } => reply matches ToolReplyView::Memories(entries)
            && (last matches Some(n) ==> entries.len() <= n) && forall|k: int|
            0 <= k < entries.len() ==> tagged(#[trigger] entries[k], tag),
        ToolCallView::MemoryShow { id } => reply matches ToolReplyView::MemoryDetails(note)
            && note.id == id,
        ToolCallView::MemorySearch { query } => reply matches ToolReplyView::Memories(entries)
            && forall|k: int|
            0 <= k < entries.len() ==> contains_text((#[trigger] entries[k]).content, query),
        ToolCallView::MemoryRemove { id } => reply == (ToolReplyView::Changed { id }),
    }
}

/// The identifier that a call is refused for before the store is read: a
/// malformed identifier of the row, or of the parent, or of the dependency
/// where no parent is given.
pub open spec fn refused_id(call: ToolCallView) -> Option<Seq<char>> {
    let first = match call {
        ToolCallView::Create { title, description, parent, depend } => if parent is Some {
            parent
        } else {
            depend
        },
        ToolCallView::List { inprogress, all, parent } => parent,
        ToolCallView::Show { id } => Some(id),
        ToolCallView::Update { id, description } => Some(id),
        ToolCallView::Start { id } => Some(id),
        ToolCallView::Done { id } => Some(id),
        ToolCallView::Remove { id } => Some(id),
        ToolCallView::MemoryShow { id } => Some(id),
        ToolCallView::MemoryRemove { id } => Some(id),
        _ => None,
    };
    match first {
        Some(id) => if valid_id(id) {
            None
        } else {
            Some(id)
        },
        None => None,
    }
}

/// What belongs to the answer of a call. A call with a malformed identifier
/// gets the failure that says so. Every other answer is either what the
/// tool answers where it goes well, or it reports a failure that the call
/// can come to.
pub open spec fn answers(call: ToolCallView, reply: ToolReplyView) -> bool {
    match refused_id(call) {
        Some(id) => reply == malformed(id),
        None => succeeds(call, reply) || exists|failure: StoreErrorView|
            reports(reply, failure) && may_fail(call, failure),
    }
}

/// An optional text as an optional string slice.
fn as_opt_str(value: &Option<String>) -> (slice: Option<&str>)
    ensures
        opt_str_text(slice) == opt_text(*value),
{
    match value {
        Some(text) => Some(text.as_str()),
        None => None,
    }
}

/// Runs a call on the store of an initialized project and says what came of
/// it. What the store answers is outside the proofs; the answer is what
/// belongs to the tool, and every failure of the store is an answer, with
/// the failure's message.
pub fn run_tool(conn: &Connection, call: &ToolCall) -> (reply: ToolReply)
    ensures
        answers(call@, reply@),
{
    match call {
        ToolCall::Create { title, description, parent, depend } => {
            let outcome = create_task(
                conn,
                title.as_str(),
                description.as_str(),
                as_opt_str(parent),
                as_opt_str(depend),
            );
            let ghost seen = outcome;
            let reply = created_reply(outcome);
            proof {
                if let Err(failure) = seen {
                    assert(reports(reply@, failure@));
                }
            }
            reply
        },
        ToolCall::List { inprogress, all, parent } => {
            let outcome = list_tasks(conn, *inprogress, *all, as_opt_str(parent));
            let ghost seen = outcome;
            proof {
                if let Ok(entries) = &outcome {
                    assert forall|k: int| 0 <= k < entries.deep_view().len() implies {
                        &&& status_filter(*inprogress, *all) matches Some(status) ==> (
                        #[trigger] entries.deep_view()[k]).status == status
                        &&& parent is Some ==> entries.deep_view()[k].parent_id == opt_text(
                            *parent,
                        )
                    } by {
                        assert(entries.deep_view()[k] == entries@[k]@);
                    }
                }
            }
            let reply = tasks_reply(outcome);
            proof {
                if let Err(failure) = seen {
                    assert(reports(reply@, failure@));
                }
            }
            reply
        },
        ToolCall::Show { id } => {
            let outcome = get_task(conn, id.as_str());
            let ghost seen = outcome;
            let reply = task_reply(outcome);
            proof {
                if let Err(failure) = seen {
                    assert(reports(reply@, failure@));
                }
            }
            reply
        },
        ToolCall::Update { id, description } => {
            let outcome = update_task(conn, id.as_str(), description.as_str());
            let ghost seen = outcome;
            let reply = changed_reply(outcome, id.as_str());
            proof {
                if let Err(failure) = seen {
                    assert(reports(reply@, failure@));
                }
            }
            reply
        },
        ToolCall::Start { id } => {
            let outcome = start_task(conn, id.as_str());
            let ghost seen = outcome;
            let reply = changed_reply(outcome, id.as_str());
            proof {
                if let Err(failure) = seen {
                    assert(reports(reply@, failure@));
                }
            }
            reply
        },
        ToolCall::Done { id } => {
            let outcome = complete_task(conn, id.as_str());
            let ghost seen = outcome;
            let reply = changed_reply(outcome, id.as_str());
            proof {
                if let Err(failure) = seen {
                    assert(reports(reply@, failure@));
                }
            }
            reply
        },
        ToolCall::Remove { id } => {
            let outcome = remove_task(conn, id.as_str());
            let ghost seen = outcome;
            let reply = changed_reply(outcome, id.as_str());
            proof {
                if let Err(failure) = seen {
                    assert(reports(reply@, failure@));
                }
            }
            reply
        },
        ToolCall::MemoryCreate { content, tags } => {
            let outcome = create_memory(conn, content.as_str(), as_opt_str(tags));
            let ghost seen = outcome;
            let reply = created_reply(outcome);
            proof {
                if let Err(failure) = seen {
                    assert(reports(reply@, failure@));
                }
            }
            reply
        },
        ToolCall::MemoryList { tag, last } => {
            let outcome = list_memories(conn, as_opt_str(tag), *last);
            let ghost seen = outcome;
            proof {
                if let Ok(entries) = &outcome {
                    assert forall|k: int| 0 <= k < entries.deep_view().len() implies tagged(
                        #[trigger] entries.deep_view()[k],
                        opt_text(*tag),
                    ) by {
                        assert(entries.deep_view()[k] == entries@[k]@);
                    }
                }
            }
            let reply = memories_reply(outcome);
            proof {
                if let Err(failure) = seen {
                    assert(reports(reply@, failure@));
                }
            }
            reply
        },
        ToolCall::MemoryShow { id } => {
            let outcome = get_memory(conn, id.as_str());
            let ghost seen = outcome;
            let reply = memory_reply(outcome);
            proof {
                if let Err(failure) = seen {
                    assert(reports(reply@, failure@));
                }
            }
            reply
        },
        ToolCall::MemorySearch { query } => {
            let outcome = search_memories(conn, query.as_str());
            let ghost seen = outcome;
            proof {
                if let Ok(entries) = &outcome {
                    assert forall|k: int| 0 <= k < entries.deep_view().len() implies contains_text(
                        (#[trigger] entries.deep_view()[k]).content,
                        query@,
                    ) by {
                        assert(entries.deep_view()[k] == entries@[k]@);
                    }
                }
            }
            let reply = memories_reply(outcome);
            proof {
                if let Err(failure) = seen {
                    assert(reports(reply@, failure@));
                }
            }
            reply
        },
        ToolCall::MemoryRemove { id } => {
            let outcome = remove_memory(conn, id.as_str());
            let ghost seen = outcome;
            let reply = changed_reply(outcome, id.as_str());
            proof {
                if let Err(failure) = seen {
                    assert(reports(reply@, failure@));
                }
            }
            reply
        },
    }
}

/// The tools that work on the store of an initialized project.
pub open spec fn store_tool(name: Seq<char>) -> bool {
    place(name) is Some
}

/// The protocol-level error for a tool that the store does not have.
pub open spec fn is_unknown_tool(name: Seq<char>, error: JsonRpcError) -> bool {
    error.code == INVALID_PARAMS && error.message@ == "Unknown tool: "@ + name
}

/// The failure for a bundle of arguments that a tool refuses.
pub open spec fn refuses(refusal: ArgumentErrorView) -> ToolReplyView {
    ToolReplyView::Failed { message: refusal.message() }
}

/// What the dispatcher guarantees of a call on an open store. A name that is
/// no store tool's is refused at the level of the protocol. A bundle that
/// does not fit what the catalogue declares for the tool is a failure of
/// the tool, and nothing is run. Every other call is run, and its answer
/// belongs to the tool.
pub open spec fn dispatched(
    name: Seq<char>,
    args: Value,
    outcome: Result<ToolReply, JsonRpcError>,
) -> bool {
    match place(name) {
        None => outcome matches Err(e) && is_unknown_tool(name, e),
        Some(at) => outcome matches Ok(reply) && match schema_error(catalogue()[at], args) {
            Some(refusal) => reply@ == refuses(refusal),
            None => answers(record(at, args), reply@),
        },
    }
}

/// The catalogue lists the initializer and exactly the tools that the
/// dispatcher runs, each at its place: what is listed can be invoked, and
/// nothing else can.
pub proof fn catalogue_is_dispatched(name: Seq<char>)
    ensures
        tool_names().contains(name) <==> name == "init"@ || store_tool(name),
        place(name) matches Some(at) ==> 1 <= at < tool_names().len() && tool_names()[at] == name,
{
    let names = tool_names();
    assert(names.len() == 13);
    assert(names[0] == "init"@);
    assert(names[1] == "create"@);
    assert(names[2] == "list"@);
    assert(names[3] == "show"@);
    assert(names[4] == "update"@);
    assert(names[5] == "start"@);
    assert(names[6] == "done"@);
    assert(names[7] == "remove"@);
    assert(names[8] == "memory_create"@);
    assert(names[9] == "memory_list"@);
    assert(names[10] == "memory_show"@);
    assert(names[11] == "memory_search"@);
    assert(names[12] == "memory_remove"@);
    if names.contains(name) {
        let i = choose|i: int| 0 <= i < names.len() && names[i] == name;
        assert(0 <= i < 13);
    }
}

/// The protocol-level error for a tool that the store does not have.
pub fn unknown_tool(name: &str) -> (error: JsonRpcError)
    ensures
        is_unknown_tool(name@, error),
{
    let mut message = String::from_str("Unknown tool: ");
    message.append(name);
    JsonRpcError { code: INVALID_PARAMS, message }
}

/// Runs a tool on the store of an initialized project: reads the call,
/// and runs it where the tool exists and accepts its arguments.
pub fn handle_tool_with_db(conn: &Connection, name: &str, args: &Value) -> (outcome: Result<
    ToolReply,
    JsonRpcError,
>)
    ensures
        dispatched(name@, *args, outcome),
{
    match read_call(name, args) {
        Reading::UnknownTool => Err(unknown_tool(name)),
        Reading::Refused(refusal) => Ok(refused_reply(&refusal)),
        Reading::Call(call) => Ok(run_tool(conn, &call)),
    }
}

/// What a request needs done outside before it can be answered.
#[derive(Debug, Clone, Copy, PartialEq, Eq, Structural)]
pub enum Preparation {
    /// Nothing: the answer does not depend on the project.
    Nothing,
    /// The project is to be initialized.
    InitProject,
    /// The store of the project is to be opened, if there is one.
    OpenStore,
}

/// What came of the preparation.
pub enum Prepared<'a> {
    /// Nothing was done.
    Nothing,
    /// The project was initialized; `path` is where its store lies.
    Initialized { path: String },
    /// The project could not be initialized.
    InitFailed { message: String },
    /// The store is open.
    Store(&'a Connection),
    /// The project has no store.
    NoStore,
    /// The store could not be opened.
    StoreFailed { message: String },
}

/// What a tool needs before it can run: the initializer initializes the
/// project, every other tool works on the open store.
pub fn tool_preparation(name: &str) -> (needed: Preparation)
    ensures
        needed == if name@ == "init"@ {
            Preparation::InitProject
        } else {
            Preparation::OpenStore
        },
{
    if text_eq(name, "init") {
        Preparation::InitProject
    } else {
        Preparation::OpenStore
    }
}

/// What a tool call comes to once the preparation was made. The
/// initializer reports where the store lies, or why there is none. Every
/// other call fails as not initialized where the project has no store, and
/// as a database error where the store could not be opened: both are
/// failures of the tool, not of the protocol. On an open store the
/// dispatcher decides.
pub open spec fn called(
    name: Seq<char>,
    args: Value,
    prepared: Prepared,
    outcome: Result<ToolReply, JsonRpcError>,
) -> bool {
    if name == "init"@ {
        outcome matches Ok(reply) && reply@ == match prepared {
            Prepared::Initialized { path } => ToolReplyView::Initialized { path: path@ },
            Prepared::InitFailed { message } => ToolReplyView::Failed { message: message@ },
            _ => ToolReplyView::Failed { message: NOT_INITIALIZED_ERROR@ },
        }
    } else {
        match prepared {
            Prepared::Store(_) => dispatched(name, args, outcome),
            Prepared::StoreFailed { message } => outcome matches Ok(reply) && reply@
                == (ToolReplyView::Failed { message: "Database error: "@ + message@ }),
            _ => outcome matches Ok(reply) && reply@ == (ToolReplyView::Failed {
                message: NOT_INITIALIZED_ERROR@,
            }),
        }
    }
}

/// Answers a tool call after its preparation.
pub fn handle_tool_call(name: &str, args: &Value, prepared: Prepared) -> (outcome: Result<
    ToolReply,
    JsonRpcError,
>)
    ensures
        called(name@, *args, prepared, outcome),
{
    if text_eq(name, "init") {
        match prepared {
            Prepared::Initialized { path } => Ok(ToolReply::Initialized { path }),
            Prepared::InitFailed { message } => Ok(ToolReply::Failed { message }),
            _ => Ok(ToolReply::Failed { message: String::from_str(NOT_INITIALIZED_ERROR) }),
        }
    } else {
        match prepared {
            Prepared::Store(conn) => handle_tool_with_db(conn, name, args),
            Prepared::StoreFailed { message } => {
                let mut text = String::from_str("Database error: ");
                text.append(message.as_str());
                Ok(ToolReply::Failed { message: text })
            },
            _ => Ok(ToolReply::Failed { message: String::from_str(NOT_INITIALIZED_ERROR) }),
        }
    }
}

} // verus!
