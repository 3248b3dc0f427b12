//! Data model for the conversation with the chat-completion endpoint:
//! messages, tool-call requests, and the shape of one model response.

use vstd::prelude::*;

verus! {

/// The kind of a tool call. The chat protocol currently has exactly one.
#[derive(Clone, Copy, Debug, PartialEq, Eq, Structural)]
pub enum ToolType {
    Function,
}

/// The function part of a tool call: which tool the model wants, and the
/// raw argument text, expected to parse as a JSON object.
#[derive(Debug)]
pub struct Function {
    pub name: String,
    pub arguments: String,
}

/// A tool call as the model emits it: an identifier unique within one
/// response, the call kind, and the named function with its arguments.
#[derive(Debug)]
pub struct ToolCall {
    pub id: String,
    pub tool_type: ToolType,
    pub function: Function,
}

/// Mathematical model of a tool call: the identifier, tool name and raw
/// argument text as character sequences.
#[verifier::ext_equal]
pub struct ToolCallView {
    pub id: Seq<char>,
    pub name: Seq<char>,
    pub arguments: Seq<char>,
}

impl View for ToolCall {
    type V = ToolCallView;

    open spec fn view(&self) -> ToolCallView {
        ToolCallView {
            id: self.id@,
            name: self.function.name@,
            arguments: self.function.arguments@,
        }
    }
}

/// The model of a sequence of tool calls.
pub open spec fn calls_view(calls: Seq<ToolCall>) -> Seq<ToolCallView> {
    calls.map_values(|t: ToolCall| t@)
}

impl ToolCall {
    pub fn new(id: String, name: String, arguments: String) -> (r: ToolCall)
        ensures
            r@ == (ToolCallView { id: id@, name: name@, arguments: arguments@ }),
    {
        ToolCall { id, tool_type: ToolType::Function, function: Function { name, arguments } }
    }

    /// A copy whose model is the same as the original's.
    pub fn duplicate(&self) -> (r: ToolCall)
        ensures
            r@ == self@,
    {
        ToolCall {
            id: self.id.clone(),
            tool_type: self.tool_type,
            function: Function {
                name: self.function.name.clone(),
                arguments: self.function.arguments.clone(),
            },
        }
    }
}

/// One message of the conversation. `role` says who speaks: the user, the
/// assistant (possibly requesting tool calls), or a tool reporting the
/// result of one call, in which case `tool_call_id` names that call.
#[derive(Debug)]
pub struct Message {
    pub role: String,
    pub content: Option<String>,
    pub tool_calls: Option<Vec<ToolCall>>,
    pub tool_call_id: Option<String>,
}

/// Mathematical model of a message.
#[verifier::ext_equal]
pub struct MessageView {
    pub role: Seq<char>,
    pub content: Option<Seq<char>>,
    pub tool_calls: Option<Seq<ToolCallView>>,
    pub tool_call_id: Option<Seq<char>>,
}

impl View for Message {
    type V = MessageView;

    open spec fn view(&self) -> MessageView {
        MessageView {
            role: self.role@,
            content: match self.content {
                Some(c) => Some(c@),
                None => None,
            },
            tool_calls: match self.tool_calls {
                Some(calls) => Some(calls_view(calls@)),
                None => None,
            },
            tool_call_id: match self.tool_call_id {
                Some(id) => Some(id@),
                None => None,
            },
        }
    }
}

/// The model of a user message carrying the given text.
pub open spec fn user_message_view(text: Seq<char>) -> MessageView {
    MessageView { role: "user"@, content: Some(text), tool_calls: None, tool_call_id: None }
}

/// The model of an assistant message that requests the given tool calls.
pub open spec fn assistant_calls_view(calls: Seq<ToolCallView>) -> MessageView {
    MessageView { role: "assistant"@, content: None, tool_calls: Some(calls), tool_call_id: None }
}

/// The model of an assistant message carrying only final text.
pub open spec fn assistant_text_view(text: Seq<char>) -> MessageView {
    MessageView { role: "assistant"@, content: Some(text), tool_calls: None, tool_call_id: None }
}

/// The model of a tool message reporting `content` for the call `id`.
pub open spec fn tool_message_view(id: Seq<char>, content: Seq<char>) -> MessageView {
    MessageView { role: "tool"@, content: Some(content), tool_calls: None, tool_call_id: Some(id) }
}

impl Message {
    /// The user's message: seeds a conversation.
    pub fn user(text: String) -> (m: Message)
        ensures
            m@ == user_message_view(text@),
    {
        Message {
            role: String::from_str("user"),
            content: Some(text),
            tool_calls: None,
            tool_call_id: None,
        }
    }

    /// The assistant's message requesting the given tool calls.
    pub fn assistant_tool_calls(calls: Vec<ToolCall>) -> (m: Message)
        ensures
            m@ == assistant_calls_view(calls_view(calls@)),
    {
        Message {
            role: String::from_str("assistant"),
            content: None,
            tool_calls: Some(calls),
            tool_call_id: None,
        }
    }

    /// The assistant's message carrying only final text.
    pub fn assistant_text(text: String) -> (m: Message)
        ensures
            m@ == assistant_text_view(text@),
    {
        Message {
            role: String::from_str("assistant"),
            content: Some(text),
            tool_calls: None,
            tool_call_id: None,
        }
    }

    /// A tool message reporting `content` for the call `tool_call_id`.
    pub fn tool(tool_call_id: String, content: String) -> (m: Message)
        ensures
            m@ == tool_message_view(tool_call_id@, content@),
    {
        Message {
            role: String::from_str("tool"),
            content: Some(content),
            tool_calls: None,
            tool_call_id: Some(tool_call_id),
        }
    }
}

/// Why the model stopped generating one choice.
#[derive(Clone, Copy, Debug, PartialEq, Eq, Structural)]
pub enum FinishReason {
    Stop,
    Length,
    ToolCalls,
    ContentFilter,
    FunctionCall,
}

/// One ranked choice of a model response.
#[derive(Debug)]
pub struct Choice {
    pub index: u32,
    pub message: Message,
    pub finish_reason: FinishReason,
}

/// Mathematical model of one choice.
#[verifier::ext_equal]
pub struct ChoiceView {
    pub index: u32,
    pub message: MessageView,
    pub finish_reason: FinishReason,
}

impl View for Choice {
    type V = ChoiceView;

    open spec fn view(&self) -> ChoiceView {
        ChoiceView { index: self.index, message: self.message@, finish_reason: self.finish_reason }
    }
}

/// One structured response of the chat-completion endpoint: a ranked list
/// of choices.
#[derive(Debug)]
pub struct Response {
    pub choices: Vec<Choice>,
}

/// The model of a response: its choices in order.
pub open spec fn response_view(r: Response) -> Seq<ChoiceView> {
    r.choices@.map_values(|c: Choice| c@)
}

/// An application-level error with a diagnostic message.
#[derive(Debug)]
pub enum AppError {
    ArgumentError(String),
}

impl AppError {
    /// The diagnostic text of this error.
    pub fn message(&self) -> (r: String)
        ensures
            (match self {
                AppError::ArgumentError(msg) => r@ == "ArgumentError: "@ + msg@,
            }),
    {
        match self {
            AppError::ArgumentError(msg) => {
                String::from_str("ArgumentError: ").concat(msg.as_str())
            },
        }
    }
}

} // verus!
