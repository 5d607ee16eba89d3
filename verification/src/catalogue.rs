//! The catalogue of tools: every tool that can be invoked, with the
//! arguments it declares.

use vstd::prelude::*;
use vstd::string::*;

verus! {

/// The JSON type of an argument.
#[derive(Debug, Clone, Copy, PartialEq, Eq, Structural)]
pub enum PropertyKind {
    Text,
    Flag,
    Count,
}

impl PropertyKind {
    /// The JSON schema's word for a kind.
    pub open spec fn word(self) -> Seq<char> {
        match self {
            PropertyKind::Text => "string"@,
            PropertyKind::Flag => "boolean"@,
            PropertyKind::Count => "integer"@,
        }
    }

    /// The JSON schema's word for this kind.
    pub fn as_str(self) -> (text: &'static str)
        ensures
            text@ == self.word(),
    {
        match self {
            PropertyKind::Text => "string",
            PropertyKind::Flag => "boolean",
            PropertyKind::Count => "integer",
        }
    }
}

/// One declared argument of a tool.
#[derive(Debug, PartialEq, Eq)]
pub struct ToolProperty {
    pub name: String,
    pub kind: PropertyKind,
    pub description: String,
}

/// The arguments that a tool declares: its properties, and the names of
/// those that a call must give.
#[derive(Debug, PartialEq, Eq)]
pub struct ToolSchema {
    pub properties: Vec<ToolProperty>,
    pub required: Vec<String>,
}

/// A tool of the catalogue.
#[derive(Debug, PartialEq, Eq)]
pub struct Tool {
    pub name: String,
    pub description: String,
    pub input_schema: ToolSchema,
}

/// A declared argument as a mathematical value.
pub struct PropertyView {
    pub name: Seq<char>,
    pub kind: PropertyKind,
    pub description: Seq<char>,
}

/// A tool as a mathematical value.
pub struct ToolView {
    pub name: Seq<char>,
    pub description: Seq<char>,
    pub properties: Seq<PropertyView>,
    pub required: Seq<Seq<char>>,
}

impl View for ToolProperty {
    type V = PropertyView;

    open spec fn view(&self) -> PropertyView {
        PropertyView { name: self.name@, kind: self.kind, description: self.description@ }
    }
}

impl DeepView for ToolProperty {
    type V = PropertyView;

    open spec fn deep_view(&self) -> PropertyView {
        self@
    }
}

impl View for Tool {
    type V = ToolView;

    open spec fn view(&self) -> ToolView {
        ToolView {
            name: self.name@,
            description: self.description@,
            properties: self.input_schema.properties.deep_view(),
            required: self.input_schema.required.deep_view(),
        }
    }
}

impl DeepView for Tool {
    type V = ToolView;

    open spec fn deep_view(&self) -> ToolView {
        self@
    }
}

/// A text argument.
pub open spec fn text_property(name: Seq<char>, description: Seq<char>) -> PropertyView {
    PropertyView { name, kind: PropertyKind::Text, description }
}

/// The identifier argument of the tools that work on one task.
pub open spec fn task_id_property() -> PropertyView {
    text_property("id"@, "Task ID (6 characters)"@)
}

/// The identifier argument of the tools that work on one note.
pub open spec fn memory_id_property() -> PropertyView {
    text_property("id"@, "Memory ID (6 characters)"@)
}

/// A tool that takes the identifier of a task and nothing else.
pub open spec fn task_id_tool(name: Seq<char>, description: Seq<char>) -> ToolView {
    ToolView { name, description, properties: seq![task_id_property()], required: seq!["id"@] }
}

/// A tool that takes the identifier of a note and nothing else.
pub open spec fn memory_id_tool(name: Seq<char>, description: Seq<char>) -> ToolView {
    ToolView { name, description, properties: seq![memory_id_property()], required: seq!["id"@] }
}

/// The catalogue: the initializer, the seven task tools and the five memory
/// tools, each with its declared arguments.
pub open spec fn catalogue() -> Seq<ToolView> {
    seq![
        ToolView {
            name: "init"@,
            description: "Initialize tsk in current directory. Creates .tsk/ folder with database."@,
            properties: Seq::empty(),
            required: Seq::empty(),
        },
        ToolView {
            name: "create"@,
            description: "Create a new task"@,
            properties: seq![
                text_property("title"@, "Task title (short summary)"@),
                text_property("description"@, "Task description (detailed info)"@),
                text_property("parent"@, "Parent task ID for subtasks"@),
                text_property("depend"@, "Dependency task ID"@),
            ],
            required: seq!["title"@, "description"@],
        },
        ToolView {
            name: "list"@,
            description: "List tasks. By default shows pending tasks only."@,
            properties: seq![
                PropertyView {
                    name: "inprogress"@,
                    kind: PropertyKind::Flag,
                    description: "Show in progress tasks only"@,
                },
                PropertyView {
                    name: "all"@,
                    kind: PropertyKind::Flag,
                    description: "Show all tasks (pending, in progress, done)"@,
                },
                text_property("parent"@, "Filter by parent task ID"@),
            ],
            required: Seq::empty(),
        },
        task_id_tool("show"@, "Show full task details"@),
        ToolView {
            name: "update"@,
            description: "Update task description"@,
            properties: seq![
                task_id_property(),
                text_property("description"@, "New description text"@),
            ],
            required: seq!["id"@, "description"@],
        },
        task_id_tool("start"@, "Start working on a task (pending -> in progress)"@),
        task_id_tool("done"@, "Mark task as done"@),
        task_id_tool("remove"@, "Remove a task"@),
        ToolView {
            name: "memory_create"@,
            description: "Create a memory entry to store project knowledge"@,
            properties: seq![
                text_property("content"@, "Memory content text"@),
                text_property("tags"@, "Tags (comma-separated)"@),
            ],
            required: seq!["content"@],
        },
        ToolView {
            name: "memory_list"@,
            description: "List memory entries"@,
            properties: seq![
                text_property("tag"@, "Filter by tag"@),
                PropertyView {
                    name: "last"@,
                    kind: PropertyKind::Count,
                    description: "Show only last N entries"@,
                },
            ],
            required: Seq::empty(),
        },
        memory_id_tool("memory_show"@, "Show full memory entry"@),
        ToolView {
            name: "memory_search"@,
            description: "Search memories by content"@,
            properties: seq![text_property("query"@, "Search query"@)],
            required: seq!["query"@],
        },
        memory_id_tool("memory_remove"@, "Remove a memory entry"@),
    ]
}

/// The names of the catalogue, in its order.
pub open spec fn tool_names() -> Seq<Seq<char>> {
    catalogue().map_values(|tool: ToolView| tool.name)
}

/// The names that arguments go by, across all tools.
pub open spec fn stable_field(name: Seq<char>) -> bool {
    ||| name == "title"@
    ||| name == "description"@
    ||| name == "parent"@
    ||| name == "depend"@
    ||| name == "id"@
    ||| name == "inprogress"@
    ||| name == "all"@
    ||| name == "tag"@
    ||| name == "last"@
    ||| name == "content"@
    ||| name == "tags"@
    ||| name == "query"@
}

/// A tool declares this argument.
pub open spec fn declares(tool: ToolView, name: Seq<char>) -> bool {
    exists|j: int| 0 <= j < tool.properties.len() && (#[trigger] tool.properties[j]).name == name
}

/// Every declared argument goes by one of the stable names, and every
/// required argument is declared.
pub proof fn catalogue_is_sound()
    ensures
        catalogue().len() == 13,
        forall|i: int, j: int|
            0 <= i < catalogue().len() && 0 <= j < catalogue()[i].properties.len()
                ==> stable_field(#[trigger] catalogue()[i].properties[j].name),
        forall|i: int, k: int|
            0 <= i < catalogue().len() && 0 <= k < catalogue()[i].required.len() ==> declares(
                catalogue()[i],
                #[trigger] catalogue()[i].required[k],
            ),
{
    let tools = catalogue();
    assert forall|i: int, k: int|
        0 <= i < tools.len() && 0 <= k < tools[i].required.len() implies declares(
        tools[i],
        #[trigger] tools[i].required[k],
    ) by {
        let tool = tools[i];
        if i == 1 {
            assert(tool.properties[0].name == "title"@);
            assert(tool.properties[1].name == "description"@);
        } else if i == 4 {
            assert(tool.properties[0].name == "id"@);
            assert(tool.properties[1].name == "description"@);
        } else if i == 8 {
            assert(tool.properties[0].name == "content"@);
        } else if i == 11 {
            assert(tool.properties[0].name == "query"@);
        } else {
            assert(tool.properties[0].name == "id"@);
        }
    }
}

fn property(name: &str, kind: PropertyKind, description: &str) -> (made: ToolProperty)
    ensures
        made@ == (PropertyView { name: name@, kind, description: description@ }),
{
    ToolProperty { name: String::from_str(name), kind, description: String::from_str(description) }
}

fn tool(name: &str, description: &str, properties: Vec<ToolProperty>, required: Vec<String>) -> (made:
    Tool)
    ensures
        made@ == (ToolView {
            name: name@,
            description: description@,
            properties: properties.deep_view(),
            required: required.deep_view(),
        }),
{
    Tool {
        name: String::from_str(name),
        description: String::from_str(description),
        input_schema: ToolSchema { properties, required },
    }
}

fn no_properties() -> (list: Vec<ToolProperty>)
    ensures
        list.deep_view() == Seq::<PropertyView>::empty(),
{
    let list: Vec<ToolProperty> = Vec::new();
    assert(list.deep_view() =~= Seq::<PropertyView>::empty());
    list
}

fn and_property(list: Vec<ToolProperty>, name: &str, kind: PropertyKind, description: &str) -> (longer:
    Vec<ToolProperty>)
    ensures
        longer.deep_view() == list.deep_view().push(
            PropertyView { name: name@, kind, description: description@ },
        ),
{
    let mut longer = list;
    longer.push(property(name, kind, description));
    assert(longer.deep_view() =~= list.deep_view().push(
        PropertyView { name: name@, kind, description: description@ },
    ));
    longer
}

fn no_names() -> (list: Vec<String>)
    ensures
        list.deep_view() == Seq::<Seq<char>>::empty(),
{
    let list: Vec<String> = Vec::new();
    assert(list.deep_view() =~= Seq::<Seq<char>>::empty());
    list
}

fn and_name(list: Vec<String>, name: &str) -> (longer: Vec<String>)
    ensures
        longer.deep_view() == list.deep_view().push(name@),
{
    let mut longer = list;
    longer.push(String::from_str(name));
    assert(longer.deep_view() =~= list.deep_view().push(name@));
    longer
}

fn task_id_only(name: &str, description: &str) -> (made: Tool)
    ensures
        made@ == task_id_tool(name@, description@),
{
    let properties = and_property(
        no_properties(),
        "id",
        PropertyKind::Text,
        "Task ID (6 characters)",
    );
    let required = and_name(no_names(), "id");
    assert(properties.deep_view() =~= seq![task_id_property()]);
    assert(required.deep_view() =~= seq!["id"@]);
    tool(name, description, properties, required)
}

fn memory_id_only(name: &str, description: &str) -> (made: Tool)
    ensures
        made@ == memory_id_tool(name@, description@),
{
    let properties = and_property(
        no_properties(),
        "id",
        PropertyKind::Text,
        "Memory ID (6 characters)",
    );
    let required = and_name(no_names(), "id");
    assert(properties.deep_view() =~= seq![memory_id_property()]);
    assert(required.deep_view() =~= seq!["id"@]);
    tool(name, description, properties, required)
}

/// The tools that can be invoked, with their declared arguments.
pub fn get_tools() -> (tools: Vec<Tool>)
    ensures
        tools.deep_view() == catalogue(),
{
    let mut tools: Vec<Tool> = Vec::new();

    tools.push(
        tool(
            "init",
            "Initialize tsk in current directory. Creates .tsk/ folder with database.",
            no_properties(),
            no_names(),
        ),
    );

    let properties = and_property(
        no_properties(),
        "title",
        PropertyKind::Text,
        "Task title (short summary)",
    );
    let properties = and_property(
        properties,
        "description",
        PropertyKind::Text,
        "Task description (detailed info)",
    );
    let properties = and_property(
        properties,
        "parent",
        PropertyKind::Text,
        "Parent task ID for subtasks",
    );
    let properties = and_property(properties, "depend", PropertyKind::Text, "Dependency task ID");
    let required = and_name(and_name(no_names(), "title"), "description");
    tools.push(tool("create", "Create a new task", properties, required));

    let properties = and_property(
        no_properties(),
        "inprogress",
        PropertyKind::Flag,
        "Show in progress tasks only",
    );
    let properties = and_property(
        properties,
        "all",
        PropertyKind::Flag,
        "Show all tasks (pending, in progress, done)",
    );
    let properties = and_property(
        properties,
        "parent",
        PropertyKind::Text,
        "Filter by parent task ID",
    );
    tools.push(
        tool("list", "List tasks. By default shows pending tasks only.", properties, no_names()),
    );

    tools.push(task_id_only("show", "Show full task details"));

    let properties = and_property(
        no_properties(),
        "id",
        PropertyKind::Text,
        "Task ID (6 characters)",
    );
    let properties = and_property(
        properties,
        "description",
        PropertyKind::Text,
        "New description text",
    );
    let required = and_name(and_name(no_names(), "id"), "description");
    tools.push(tool("update", "Update task description", properties, required));

    tools.push(task_id_only("start", "Start working on a task (pending -> in progress)"));
    tools.push(task_id_only("done", "Mark task as done"));
    tools.push(task_id_only("remove", "Remove a task"));

    let properties = and_property(
        no_properties(),
        "content",
        PropertyKind::Text,
        "Memory content text",
    );
    let properties = and_property(
        properties,
        "tags",
        PropertyKind::Text,
        "Tags (comma-separated)",
    );
    let required = and_name(no_names(), "content");
    tools.push(
        tool(
            "memory_create",
            "Create a memory entry to store project knowledge",
            properties,
            required,
        ),
    );

    let properties = and_property(no_properties(), "tag", PropertyKind::Text, "Filter by tag");
    let properties = and_property(
        properties,
        "last",
        PropertyKind::Count,
        "Show only last N entries",
    );
    tools.push(tool("memory_list", "List memory entries", properties, no_names()));

    tools.push(memory_id_only("memory_show", "Show full memory entry"));

    let properties = and_property(no_properties(), "query", PropertyKind::Text, "Search query");
    let required = and_name(no_names(), "query");
    tools.push(tool("memory_search", "Search memories by content", properties, required));

    tools.push(memory_id_only("memory_remove", "Remove a memory entry"));

    assert(tools.deep_view().len() == catalogue().len());
    assert forall|i: int| 0 <= i < 13 implies tools.deep_view()[i] == catalogue()[i] by {
        let made = tools.deep_view()[i];
        let wanted = catalogue()[i];
        assert(made.properties =~= wanted.properties);
        assert(made.required =~= wanted.required);
    }
    assert(tools.deep_view() =~= catalogue());
    tools
}

} // verus!
