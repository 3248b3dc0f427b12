//! Tool dispatch: from a requested tool name and raw JSON argument text to
//! either the validated action to perform, or the error the model must be
//! shown — and from the action's outcome to the tool result that goes back
//! into the conversation.

use vstd::prelude::*;

use crate::args::parse_tool_args;
use crate::args::parsed_args;
use crate::messages::ToolCall;
use crate::messages::ToolCallView;
use crate::registry::ToolKind;
use crate::registry::tool_kind_of;

verus! {

/// A validated action one tool call asks for. Performing it (the file or
/// process side effect) is the caller's business; deciding it is the
/// library's.
#[derive(Debug)]
pub enum ToolAction {
    ReadFile { file_path: String },
    WriteFile { file_path: String, content: String },
    RunCommand { command: String },
}

/// Mathematical model of a tool action.
#[verifier::ext_equal]
pub enum ToolActionView {
    ReadFile { file_path: Seq<char> },
    WriteFile { file_path: Seq<char>, content: Seq<char> },
    RunCommand { command: Seq<char> },
}

impl View for ToolAction {
    type V = ToolActionView;

    open spec fn view(&self) -> ToolActionView {
        match self {
            ToolAction::ReadFile { file_path } => ToolActionView::ReadFile {
                file_path: file_path@,
            },
            ToolAction::WriteFile { file_path, content } => ToolActionView::WriteFile {
                file_path: file_path@,
                content: content@,
            },
            ToolAction::RunCommand { command } => ToolActionView::RunCommand { command: command@ },
        }
    }
}

/// Why a tool call could not be dispatched. Every variant is recoverable:
/// it becomes tool-result content for the model to react to, never a
/// crash of the loop.
#[derive(Debug)]
pub enum DispatchError {
    /// The raw argument text is not a JSON object.
    ArgumentParseError,
    /// No tool of the requested name exists; carries that name.
    UnknownToolError(String),
    /// A required argument key is absent or its value is not a string;
    /// carries that key.
    MissingArgumentError(String),
}

/// Mathematical model of a dispatch error.
#[verifier::ext_equal]
pub enum DispatchErrorView {
    ArgumentParse,
    UnknownTool(Seq<char>),
    MissingArgument(Seq<char>),
}

impl View for DispatchError {
    type V = DispatchErrorView;

    open spec fn view(&self) -> DispatchErrorView {
        match self {
            DispatchError::ArgumentParseError => DispatchErrorView::ArgumentParse,
            DispatchError::UnknownToolError(name) => DispatchErrorView::UnknownTool(name@),
            DispatchError::MissingArgumentError(key) => DispatchErrorView::MissingArgument(key@),
        }
    }
}

/// The string value of `key` in the parsed argument object, or `None`
/// where the key is absent or its value is not a string.
pub open spec fn string_value_of(
    object: Map<Seq<char>, Option<Seq<char>>>,
    key: Seq<char>,
) -> Option<Seq<char>> {
    if object.contains_key(key) && object[key] is Some {
        Some(object[key]->0)
    } else {
        None
    }
}

/// What dispatching a requested tool name with raw argument text decides:
/// first the text must parse as a JSON object, then the name must be a
/// known tool, then each of the tool's required keys must hold a string.
pub open spec fn dispatch_spec(name: Seq<char>, raw_arguments: Seq<char>) -> Result<
    ToolActionView,
    DispatchErrorView,
> {
    match parsed_args(raw_arguments) {
        None => Err(DispatchErrorView::ArgumentParse),
        Some(object) => match tool_kind_of(name) {
            None => Err(DispatchErrorView::UnknownTool(name)),
            Some(ToolKind::Read) => match string_value_of(object, "file_path"@) {
                None => Err(DispatchErrorView::MissingArgument("file_path"@)),
                Some(file_path) => Ok(ToolActionView::ReadFile { file_path }),
            },
            Some(ToolKind::Write) => match string_value_of(object, "file_path"@) {
                None => Err(DispatchErrorView::MissingArgument("file_path"@)),
                Some(file_path) => match string_value_of(object, "content"@) {
                    None => Err(DispatchErrorView::MissingArgument("content"@)),
                    Some(content) => Ok(ToolActionView::WriteFile { file_path, content }),
                },
            },
            Some(ToolKind::Bash) => match string_value_of(object, "command"@) {
                None => Err(DispatchErrorView::MissingArgument("command"@)),
                Some(command) => Ok(ToolActionView::RunCommand { command }),
            },
        },
    }
}

/// The model of a dispatch result.
pub open spec fn dispatch_result_view(r: Result<ToolAction, DispatchError>) -> Result<
    ToolActionView,
    DispatchErrorView,
> {
    match r {
        Ok(action) => Ok(action@),
        Err(e) => Err(e@),
    }
}

/// Dispatches one requested tool call: parses the raw argument text,
/// resolves the tool name, validates the tool's required arguments, and
/// returns the action to perform or the error to surface.
pub fn dispatch(name: &String, raw_arguments: &String) -> (r: Result<ToolAction, DispatchError>)
    ensures
        dispatch_result_view(r) == dispatch_spec(name@, raw_arguments@),
{
    let object = match parse_tool_args(raw_arguments.as_str()) {
        Some(object) => object,
        None => {
            return Err(DispatchError::ArgumentParseError);
        },
    };
    let kind = match crate::registry::lookup_tool(name.as_str()) {
        Some(kind) => kind,
        None => {
            return Err(DispatchError::UnknownToolError(name.clone()));
        },
    };
    match kind {
        ToolKind::Read => match object.string_arg("file_path") {
            None => Err(DispatchError::MissingArgumentError(String::from_str("file_path"))),
            Some(file_path) => Ok(ToolAction::ReadFile { file_path }),
        },
        ToolKind::Write => match object.string_arg("file_path") {
            None => Err(DispatchError::MissingArgumentError(String::from_str("file_path"))),
            Some(file_path) => match object.string_arg("content") {
                None => Err(DispatchError::MissingArgumentError(String::from_str("content"))),
                Some(content) => Ok(ToolAction::WriteFile { file_path, content }),
            },
        },
        ToolKind::Bash => match object.string_arg("command") {
            None => Err(DispatchError::MissingArgumentError(String::from_str("command"))),
            Some(command) => Ok(ToolAction::RunCommand { command }),
        },
    }
}

/// Dispatches the tool call one request carries.
pub fn plan_tool_call(call: &ToolCall) -> (r: Result<ToolAction, DispatchError>)
    ensures
        dispatch_result_view(r) == dispatch_spec(call@.name, call@.arguments),
{
    dispatch(&call.function.name, &call.function.arguments)
}

/// The text a dispatch error shows the model.
pub open spec fn dispatch_error_text(e: DispatchErrorView) -> Seq<char> {
    match e {
        DispatchErrorView::ArgumentParse => "Could not parse tool arguments as a JSON object."@,
        DispatchErrorView::UnknownTool(name) => "Unknown tool: "@ + name,
        DispatchErrorView::MissingArgument(key) => "Should have a `"@ + key + "` argument."@,
    }
}

/// Renders a dispatch error as the text the model is shown.
pub fn dispatch_error_message(e: &DispatchError) -> (r: String)
    ensures
        r@ == dispatch_error_text(e@),
{
    match e {
        DispatchError::ArgumentParseError => {
            String::from_str("Could not parse tool arguments as a JSON object.")
        },
        DispatchError::UnknownToolError(name) => {
            String::from_str("Unknown tool: ").concat(name.as_str())
        },
        DispatchError::MissingArgumentError(key) => {
            String::from_str("Should have a `").concat(key.as_str()).concat("` argument.")
        },
    }
}

/// What performing one tool action came to: the handler's output text on
/// success, or its failure message (a missing file, a failed spawn). A
/// failure is recoverable: it becomes tool-result content, never a crash.
#[derive(Debug)]
pub enum ToolOutcome {
    Output(String),
    Failure(String),
}

/// Mathematical model of a tool outcome.
#[verifier::ext_equal]
pub enum ToolOutcomeView {
    Output(Seq<char>),
    Failure(Seq<char>),
}

impl View for ToolOutcome {
    type V = ToolOutcomeView;

    open spec fn view(&self) -> ToolOutcomeView {
        match self {
            ToolOutcome::Output(text) => ToolOutcomeView::Output(text@),
            ToolOutcome::Failure(text) => ToolOutcomeView::Failure(text@),
        }
    }
}

/// The text an outcome contributes to the tool result: output and failure
/// alike are shown to the model.
pub open spec fn outcome_text(o: ToolOutcomeView) -> Seq<char> {
    match o {
        ToolOutcomeView::Output(text) => text,
        ToolOutcomeView::Failure(text) => text,
    }
}

/// The Bash tool's combined output: standard output, then standard error.
pub fn combine_output(stdout: String, stderr: &str) -> (r: String)
    ensures
        r@ == stdout@ + stderr@,
{
    stdout.concat(stderr)
}

/// The textual outcome of executing one tool call, associated back to its
/// request by identifier; always produced, even on failure.
#[derive(Debug)]
pub struct ToolResult {
    pub tool_call_id: String,
    pub content: String,
}

/// Mathematical model of a tool result.
#[verifier::ext_equal]
pub struct ToolResultView {
    pub tool_call_id: Seq<char>,
    pub content: Seq<char>,
}

impl View for ToolResult {
    type V = ToolResultView;

    open spec fn view(&self) -> ToolResultView {
        ToolResultView { tool_call_id: self.tool_call_id@, content: self.content@ }
    }
}

/// The lower-case hexadecimal digit of a value below sixteen.
pub open spec fn hex_digit(n: int) -> char {
    if n == 0 {
        '0'
    } else if n == 1 {
        '1'
    } else if n == 2 {
        '2'
    } else if n == 3 {
        '3'
    } else if n == 4 {
        '4'
    } else if n == 5 {
        '5'
    } else if n == 6 {
        '6'
    } else if n == 7 {
        '7'
    } else if n == 8 {
        '8'
    } else if n == 9 {
        '9'
    } else if n == 10 {
        'a'
    } else if n == 11 {
        'b'
    } else if n == 12 {
        'c'
    } else if n == 13 {
        'd'
    } else if n == 14 {
        'e'
    } else {
        'f'
    }
}

/// How one character appears inside a JSON string: the quote, the
/// backslash and five control characters take a two-character escape, the
/// remaining control characters a `\u00xx` escape with lower-case hex
/// digits, and every other character stands as itself.
pub open spec fn json_escape_char(c: char) -> Seq<char> {
    if c == '"' {
        seq!['\\', '"']
    } else if c == '\\' {
        seq!['\\', '\\']
    } else if c == '\u{08}' {
        seq!['\\', 'b']
    } else if c == '\t' {
        seq!['\\', 't']
    } else if c == '\n' {
        seq!['\\', 'n']
    } else if c == '\u{0c}' {
        seq!['\\', 'f']
    } else if c == '\r' {
        seq!['\\', 'r']
    } else if (c as int) < 0x20 {
        seq!['\\', 'u', '0', '0', hex_digit(c as int / 16), hex_digit(c as int % 16)]
    } else {
        seq![c]
    }
}

/// The escaped body of a JSON string: each character in turn.
pub open spec fn json_escaped(text: Seq<char>) -> Seq<char>
    decreases text.len(),
{
    if text.len() == 0 {
        Seq::empty()
    } else {
        json_escape_char(text.first()) + json_escaped(text.drop_first())
    }
}

/// The JSON encoding of a string value: the escaped text between quotes.
pub open spec fn json_string_of(text: Seq<char>) -> Seq<char> {
    seq!['"'] + json_escaped(text) + seq!['"']
}

/// Relies on serde_json's Display for Value: the compact JSON encoding of
/// a string value, which escapes the quote, the backslash and the control
/// characters exactly as `json_string_of` states and passes every other
/// character through.
#[verifier::external_body]
pub(crate) fn encode_json_string(text: &str) -> (r: String)
    ensures
        r@ == json_string_of(text@),
{
    serde_json::Value::String(text.to_string()).to_string()
}

/// The result one tool call comes to, given the outcome of its action:
/// the content is the JSON-encoded dispatch-error text where dispatch
/// failed, else the JSON-encoded outcome text; the identifier is the
/// request's own.
pub open spec fn tool_result_view_of(call: ToolCallView, outcome: ToolOutcomeView) -> ToolResultView {
    ToolResultView {
        tool_call_id: call.id,
        content: match dispatch_spec(call.name, call.arguments) {
            Err(e) => json_string_of(dispatch_error_text(e)),
            Ok(_) => json_string_of(outcome_text(outcome)),
        },
    }
}

/// Builds the tool result for one request from the outcome of its action.
/// Where dispatch failed, the outcome is not consulted: the error text is
/// the content.
pub fn finish_tool_call(call: &ToolCall, outcome: &ToolOutcome) -> (r: ToolResult)
    ensures
        r@ == tool_result_view_of(call@, outcome@),
{
    let text = match plan_tool_call(call) {
        Err(e) => dispatch_error_message(&e),
        Ok(_) => match outcome {
            ToolOutcome::Output(text) => text.clone(),
            ToolOutcome::Failure(text) => text.clone(),
        },
    };
    ToolResult { tool_call_id: call.id.clone(), content: encode_json_string(text.as_str()) }
}

} // verus!
