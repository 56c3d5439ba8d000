//! The enumerated set of tools a provider may propose.

use vstd::prelude::*;
use crate::ipc::{Tool, ToolView};
use crate::model::{clone_views, views};
use crate::text::same_text;

verus! {

/// The tools known to the service. The set is fixed at construction.
#[derive(Debug)]
pub struct ToolRegistry {
    tools: Vec<Tool>,
}

/// A tool descriptor made of three texts.
pub open spec fn tool_view(name: Seq<char>, description: Seq<char>, schema: Seq<char>) -> ToolView {
    ToolView { name, description, input_json_schema: schema }
}

/// A tool descriptor made of three texts.
pub fn tool(name: &str, description: &str, schema: &str) -> (t: Tool)
    ensures
        t@ == tool_view(name@, description@, schema@),
{
    Tool {
        name: name.to_string(),
        description: description.to_string(),
        input_json_schema: schema.to_string(),
    }
}

/// The tools of the default registry, in listing order.
pub open spec fn default_tools() -> Seq<ToolView> {
    seq![
        tool_view(
            "time.now"@,
            "Return the current UTC timestamp from the local runtime"@,
            "{\"type\":\"object\",\"properties\":{},\"additionalProperties\":false}"@,
        ),
        tool_view(
            "echo"@,
            "Echo a payload for testing tool orchestration"@,
            "{\"type\":\"object\",\"properties\":{\"input\":{\"type\":\"string\"}},\"required\":[\"input\"]}"@,
        ),
        tool_view(
            "text.uppercase"@,
            "Uppercase a provided string locally"@,
            "{\"type\":\"object\",\"properties\":{\"text\":{\"type\":\"string\"}},\"required\":[\"text\"]}"@,
        ),
        tool_view(
            "math.add"@,
            "Add two numbers locally"@,
            "{\"type\":\"object\",\"properties\":{\"a\":{\"type\":\"number\"},\"b\":{\"type\":\"number\"}},\"required\":[\"a\",\"b\"]}"@,
        ),
        tool_view(
            "file.list"@,
            "List files in the current project (read-only)"@,
            "{\"type\":\"object\",\"properties\":{\"path\":{\"type\":\"string\"}},\"additionalProperties\":false}"@,
        ),
        tool_view(
            "file.read_text"@,
            "Read a text file from the current project (read-only)"@,
            "{\"type\":\"object\",\"properties\":{\"path\":{\"type\":\"string\"}},\"required\":[\"path\"]}"@,
        ),
        tool_view(
            "file.read_csv"@,
            "Read a CSV file from the current project (read-only, preview rows)"@,
            "{\"type\":\"object\",\"properties\":{\"path\":{\"type\":\"string\"},\"limit\":{\"type\":\"integer\",\"minimum\":1}},\"required\":[\"path\"]}"@,
        ),
        tool_view(
            "file.read_json"@,
            "Read and parse a JSON file from the current project (read-only)"@,
            "{\"type\":\"object\",\"properties\":{\"path\":{\"type\":\"string\"}},\"required\":[\"path\"]}"@,
        ),
        tool_view(
            "file.search_text"@,
            "Search project files for a text query (read-only, scoped)"@,
            "{\"type\":\"object\",\"properties\":{\"query\":{\"type\":\"string\"},\"path\":{\"type\":\"string\"},\"limit\":{\"type\":\"integer\",\"minimum\":1}},\"required\":[\"query\"]}"@,
        ),
        tool_view(
            "file.stat"@,
            "Get metadata for a project-scoped file or directory (read-only)"@,
            "{\"type\":\"object\",\"properties\":{\"path\":{\"type\":\"string\"}},\"required\":[\"path\"]}"@,
        ),
        tool_view(
            "file.write_text"@,
            "Write a text file under the current project root (consent required)"@,
            "{\"type\":\"object\",\"properties\":{\"path\":{\"type\":\"string\"},\"content\":{\"type\":\"string\"}},\"required\":[\"path\",\"content\"]}"@,
        ),
        tool_view(
            "file.append_text"@,
            "Append text to a file under the current project root (consent required)"@,
            "{\"type\":\"object\",\"properties\":{\"path\":{\"type\":\"string\"},\"content\":{\"type\":\"string\"}},\"required\":[\"path\",\"content\"]}"@,
        ),
        tool_view(
            "file.mkdir"@,
            "Create a directory under the current project root (consent required)"@,
            "{\"type\":\"object\",\"properties\":{\"path\":{\"type\":\"string\"}},\"required\":[\"path\"]}"@,
        ),
        tool_view(
            "mcp.tool_call"@,
            "Call a tool on a running MCP server (consent required)"@,
            "{\"type\":\"object\",\"properties\":{\"server_id\":{\"type\":\"string\"},\"tool_name\":{\"type\":\"string\"},\"arguments\":{\"type\":\"object\"}},\"required\":[\"server_id\",\"tool_name\"],\"additionalProperties\":false}"@,
        ),
        tool_view(
            "desktop.open_url"@,
            "Open a URL using the platform shell (stubbed)"@,
            "{\"type\":\"object\",\"properties\":{\"url\":{\"type\":\"string\"}},\"required\":[\"url\"]}"@,
        ),
        tool_view(
            "desktop.app.list"@,
            "List desktop applications/windows (stubbed)"@,
            "{\"type\":\"object\",\"properties\":{\"filter\":{\"type\":\"string\"}},\"additionalProperties\":false}"@,
        ),
        tool_view(
            "desktop.app.activate"@,
            "Activate/focus a desktop application/window (stubbed)"@,
            "{\"type\":\"object\",\"properties\":{\"app\":{\"type\":\"string\"}},\"required\":[\"app\"]}"@,
        ),
    ]
}

/// Whether some descriptor in `tools` is named `name`.
pub open spec fn lists_tool(tools: Seq<ToolView>, name: Seq<char>) -> bool {
    exists|i: int| 0 <= i < tools.len() && #[trigger] tools[i].name == name
}

/// Whether some descriptor in `tools` is named `name`.
pub fn has_tool_named(tools: &Vec<Tool>, name: &str) -> (r: bool)
    ensures
        r == lists_tool(views(tools@), name@),
{
    let mut i: usize = 0;
    while i < tools.len()
        invariant
            i <= tools.len(),
            forall|k: int| 0 <= k < i ==> (#[trigger] views(tools@)[k]).name != name@,
        decreases tools.len() - i,
    {
        if same_text(tools[i].name.as_str(), name) {
            assert(views(tools@)[i as int].name == name@);
            return true;
        }
        i = i + 1;
    }
    false
}

impl Clone for ToolRegistry {
    fn clone(&self) -> (r: Self)
        ensures
            r@ == self@,
    {
        ToolRegistry { tools: clone_views(&self.tools) }
    }
}

impl View for ToolRegistry {
    type V = Seq<ToolView>;

    closed spec fn view(&self) -> Seq<ToolView> {
        views(self.tools@)
    }
}

impl ToolRegistry {
    /// The registry of the built-in tools.
    pub fn new_default() -> (r: Self)
        ensures
            r@ == default_tools(),
    {
        let mut tools: Vec<Tool> = Vec::new();
        tools.push(
            tool(
                "time.now",
                "Return the current UTC timestamp from the local runtime",
                "{\"type\":\"object\",\"properties\":{},\"additionalProperties\":false}",
            ),
        );
        tools.push(
            tool(
                "echo",
                "Echo a payload for testing tool orchestration",
                "{\"type\":\"object\",\"properties\":{\"input\":{\"type\":\"string\"}},\"required\":[\"input\"]}",
            ),
        );
        tools.push(
            tool(
                "text.uppercase",
                "Uppercase a provided string locally",
                "{\"type\":\"object\",\"properties\":{\"text\":{\"type\":\"string\"}},\"required\":[\"text\"]}",
            ),
        );
        tools.push(
            tool(
                "math.add",
                "Add two numbers locally",
                "{\"type\":\"object\",\"properties\":{\"a\":{\"type\":\"number\"},\"b\":{\"type\":\"number\"}},\"required\":[\"a\",\"b\"]}",
            ),
        );
        tools.push(
            tool(
                "file.list",
                "List files in the current project (read-only)",
                "{\"type\":\"object\",\"properties\":{\"path\":{\"type\":\"string\"}},\"additionalProperties\":false}",
            ),
        );
        tools.push(
            tool(
                "file.read_text",
                "Read a text file from the current project (read-only)",
                "{\"type\":\"object\",\"properties\":{\"path\":{\"type\":\"string\"}},\"required\":[\"path\"]}",
            ),
        );
        tools.push(
            tool(
                "file.read_csv",
                "Read a CSV file from the current project (read-only, preview rows)",
                "{\"type\":\"object\",\"properties\":{\"path\":{\"type\":\"string\"},\"limit\":{\"type\":\"integer\",\"minimum\":1}},\"required\":[\"path\"]}",
            ),
        );
        tools.push(
            tool(
                "file.read_json",
                "Read and parse a JSON file from the current project (read-only)",
                "{\"type\":\"object\",\"properties\":{\"path\":{\"type\":\"string\"}},\"required\":[\"path\"]}",
            ),
        );
        tools.push(
            tool(
                "file.search_text",
                "Search project files for a text query (read-only, scoped)",
                "{\"type\":\"object\",\"properties\":{\"query\":{\"type\":\"string\"},\"path\":{\"type\":\"string\"},\"limit\":{\"type\":\"integer\",\"minimum\":1}},\"required\":[\"query\"]}",
            ),
        );
        tools.push(
            tool(
                "file.stat",
                "Get metadata for a project-scoped file or directory (read-only)",
                "{\"type\":\"object\",\"properties\":{\"path\":{\"type\":\"string\"}},\"required\":[\"path\"]}",
            ),
        );
        tools.push(
            tool(
                "file.write_text",
                "Write a text file under the current project root (consent required)",
                "{\"type\":\"object\",\"properties\":{\"path\":{\"type\":\"string\"},\"content\":{\"type\":\"string\"}},\"required\":[\"path\",\"content\"]}",
            ),
        );
        tools.push(
            tool(
                "file.append_text",
                "Append text to a file under the current project root (consent required)",
                "{\"type\":\"object\",\"properties\":{\"path\":{\"type\":\"string\"},\"content\":{\"type\":\"string\"}},\"required\":[\"path\",\"content\"]}",
            ),
        );
        tools.push(
            tool(
                "file.mkdir",
                "Create a directory under the current project root (consent required)",
                "{\"type\":\"object\",\"properties\":{\"path\":{\"type\":\"string\"}},\"required\":[\"path\"]}",
            ),
        );
        tools.push(
            tool(
                "mcp.tool_call",
                "Call a tool on a running MCP server (consent required)",
                "{\"type\":\"object\",\"properties\":{\"server_id\":{\"type\":\"string\"},\"tool_name\":{\"type\":\"string\"},\"arguments\":{\"type\":\"object\"}},\"required\":[\"server_id\",\"tool_name\"],\"additionalProperties\":false}",
            ),
        );
        tools.push(
            tool(
                "desktop.open_url",
                "Open a URL using the platform shell (stubbed)",
                "{\"type\":\"object\",\"properties\":{\"url\":{\"type\":\"string\"}},\"required\":[\"url\"]}",
            ),
        );
        tools.push(
            tool(
                "desktop.app.list",
                "List desktop applications/windows (stubbed)",
                "{\"type\":\"object\",\"properties\":{\"filter\":{\"type\":\"string\"}},\"additionalProperties\":false}",
            ),
        );
        tools.push(
            tool(
                "desktop.app.activate",
                "Activate/focus a desktop application/window (stubbed)",
                "{\"type\":\"object\",\"properties\":{\"app\":{\"type\":\"string\"}},\"required\":[\"app\"]}",
            ),
        );
        ToolRegistry { tools }
    }

    /// A registry that holds exactly `tools`.
    pub fn from_tools(tools: Vec<Tool>) -> (r: Self)
        ensures
            r@ == views(tools@),
    {
        ToolRegistry { tools }
    }

    /// The descriptors, in registry order.
    pub fn list(&self) -> (out: Vec<Tool>)
        ensures
            views(out@) == self@,
    {
        clone_views(&self.tools)
    }

    /// Whether the registry holds a tool named `name`.
    pub fn has_tool(&self, name: &str) -> (r: bool)
        ensures
            r == lists_tool(self@, name@),
    {
        has_tool_named(&self.tools, name)
    }
}

} // verus!
