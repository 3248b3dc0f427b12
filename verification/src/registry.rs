//! The tool registry: the fixed set of available tools, their JSON-schema
//! declarations in a stable order, and resolution of a requested tool name.

use vstd::prelude::*;

verus! {

/// Declaration of one tool, sent with every request so the model knows
/// which tools it may call. `parameters` is the JSON-schema text of the
/// tool's argument object; `strict` asks the endpoint to reject malformed
/// arguments itself.
#[derive(Debug)]
pub struct ToolDefinition {
    pub name: String,
    pub description: String,
    pub parameters: String,
    pub strict: bool,
}

/// Mathematical model of one tool declaration.
#[verifier::ext_equal]
pub struct ToolDefinitionView {
    pub name: Seq<char>,
    pub description: Seq<char>,
    pub parameters: Seq<char>,
    pub strict: bool,
}

impl View for ToolDefinition {
    type V = ToolDefinitionView;

    open spec fn view(&self) -> ToolDefinitionView {
        ToolDefinitionView {
            name: self.name@,
            description: self.description@,
            parameters: self.parameters@,
            strict: self.strict,
        }
    }
}

/// Builds one tool declaration; every declaration is strict.
pub fn tool_definition_factory(name: String, description: String, parameters: String) -> (t:
    ToolDefinition)
    ensures
        t@ == (ToolDefinitionView {
            name: name@,
            description: description@,
            parameters: parameters@,
            strict: true,
        }),
{
    ToolDefinition { name, description, parameters, strict: true }
}

/// The capability a tool name resolves to.
#[derive(Clone, Copy, Debug, PartialEq, Eq, Structural)]
pub enum ToolKind {
    Read,
    Write,
    Bash,
}

/// Which capability a requested tool name denotes, if any.
pub open spec fn tool_kind_of(name: Seq<char>) -> Option<ToolKind> {
    if name == "Read"@ {
        Some(ToolKind::Read)
    } else if name == "Write"@ {
        Some(ToolKind::Write)
    } else if name == "Bash"@ {
        Some(ToolKind::Bash)
    } else {
        None
    }
}

/// Resolves a requested tool name to its capability; `None` says the name
/// is unknown.
pub fn lookup_tool(name: &str) -> (r: Option<ToolKind>)
    ensures
        r == tool_kind_of(name@),
{
    let requested = String::from_str(name);
    if requested.eq(&String::from_str("Read")) {
        Some(ToolKind::Read)
    } else if requested.eq(&String::from_str("Write")) {
        Some(ToolKind::Write)
    } else if requested.eq(&String::from_str("Bash")) {
        Some(ToolKind::Bash)
    } else {
        None
    }
}

/// The declared argument schema of the Read tool.
pub open spec fn read_tool_schema() -> Seq<char> {
    "{\"type\":\"object\",\"properties\":{\"file_path\":{\"type\":\"string\"}},\"required\":[\"file_path\"]}"@
}

/// The declared argument schema of the Write tool.
pub open spec fn write_tool_schema() -> Seq<char> {
    "{\"type\":\"object\",\"properties\":{\"file_path\":{\"type\":\"string\"},\"content\":{\"type\":\"string\"}},\"required\":[\"file_path\",\"content\"]}"@
}

/// The declared argument schema of the Bash tool.
pub open spec fn bash_tool_schema() -> Seq<char> {
    "{\"type\":\"object\",\"properties\":{\"command\":{\"type\":\"string\"}},\"required\":[\"command\"]}"@
}

/// The declaration the registry holds for the Read tool.
pub open spec fn read_tool_view() -> ToolDefinitionView {
    ToolDefinitionView {
        name: "Read"@,
        description: "Read and return the contents of a file. Takes a `file_path` argument."@,
        parameters: read_tool_schema(),
        strict: true,
    }
}

/// The declaration the registry holds for the Write tool.
pub open spec fn write_tool_view() -> ToolDefinitionView {
    ToolDefinitionView {
        name: "Write"@,
        description: "Write contents to a file. Takes `file_path` and `content` arguments."@,
        parameters: write_tool_schema(),
        strict: true,
    }
}

/// The declaration the registry holds for the Bash tool.
pub open spec fn bash_tool_view() -> ToolDefinitionView {
    ToolDefinitionView {
        name: "Bash"@,
        description: "Execute a shell command. Takes a `command` argument."@,
        parameters: bash_tool_schema(),
        strict: true,
    }
}

/// The registry's declarations in their fixed insertion order.
pub open spec fn standard_declarations() -> Seq<ToolDefinitionView> {
    seq![read_tool_view(), write_tool_view(), bash_tool_view()]
}

/// The fixed set of available tools with their declarations.
pub struct ToolRegistry {
    pub tools: Vec<ToolDefinition>,
}

/// The model of a declaration list.
pub open spec fn declarations_view(tools: Seq<ToolDefinition>) -> Seq<ToolDefinitionView> {
    tools.map_values(|t: ToolDefinition| t@)
}

impl ToolRegistry {
    /// Every tool declared: its model.
    pub open spec fn view_spec(&self) -> Seq<ToolDefinitionView> {
        declarations_view(self.tools@)
    }

    /// The registry of the three standard tools, in their fixed order.
    pub fn standard() -> (r: ToolRegistry)
        ensures
            r.view_spec() == standard_declarations(),
    {
        let mut tools: Vec<ToolDefinition> = Vec::new();
        tools.push(
            tool_definition_factory(
                String::from_str("Read"),
                String::from_str(
                    "Read and return the contents of a file. Takes a `file_path` argument.",
                ),
                String::from_str(
                    "{\"type\":\"object\",\"properties\":{\"file_path\":{\"type\":\"string\"}},\"required\":[\"file_path\"]}",
                ),
            ),
        );
        tools.push(
            tool_definition_factory(
                String::from_str("Write"),
                String::from_str(
                    "Write contents to a file. Takes `file_path` and `content` arguments.",
                ),
                String::from_str(
                    "{\"type\":\"object\",\"properties\":{\"file_path\":{\"type\":\"string\"},\"content\":{\"type\":\"string\"}},\"required\":[\"file_path\",\"content\"]}",
                ),
            ),
        );
        tools.push(
            tool_definition_factory(
                String::from_str("Bash"),
                String::from_str("Execute a shell command. Takes a `command` argument."),
                String::from_str(
                    "{\"type\":\"object\",\"properties\":{\"command\":{\"type\":\"string\"}},\"required\":[\"command\"]}",
                ),
            ),
        );
        let r = ToolRegistry { tools };
        proof {
            assert(r.view_spec() =~= standard_declarations());
        }
        r
    }

    /// The declarations to send with every request: stable order, so the
    /// model's tool menu never changes mid-conversation.
    pub fn declarations(&self) -> (r: &Vec<ToolDefinition>)
        ensures
            declarations_view(r@) == self.view_spec(),
    {
        &self.tools
    }
}

} // verus!
