//! Core of a minimal command-line agent: the tool-calling orchestration
//! loop, the conversation-state accumulation rules, and the tool
//! dispatch/response-encoding contract. Network transport and the actual
//! file/shell side effects live outside the library; the library decides
//! what to do and in what order, and proves it.

mod args;
mod conversation;
mod dispatch;
mod messages;
mod orchestrator;
mod registry;

pub use conversation::ConversationState;
pub use orchestrator::LoopError;
pub use orchestrator::LoopStep;
pub use orchestrator::LoopStepView;
pub use orchestrator::append_tool_responses;
pub use orchestrator::interpret_response;
pub use orchestrator::interpret_spec;
pub use orchestrator::lemma_turn_results_match_requests;
pub use orchestrator::loop_step_result_view;
pub use orchestrator::outcomes_view;
pub use orchestrator::tool_result_message;
pub use orchestrator::turn_messages;
pub use orchestrator::turn_tool_messages;

pub use dispatch::DispatchError;
pub use dispatch::DispatchErrorView;
pub use dispatch::ToolAction;
pub use dispatch::ToolActionView;
pub use dispatch::ToolOutcome;
pub use dispatch::ToolOutcomeView;
pub use dispatch::ToolResult;
pub use dispatch::ToolResultView;
pub use dispatch::combine_output;
pub use dispatch::dispatch;
pub use dispatch::dispatch_error_message;
pub use dispatch::dispatch_error_text;
pub use dispatch::dispatch_result_view;
pub use dispatch::dispatch_spec;
pub use dispatch::finish_tool_call;
pub use dispatch::hex_digit;
pub use dispatch::json_escape_char;
pub use dispatch::json_escaped;
pub use dispatch::json_string_of;
pub use dispatch::outcome_text;
pub use dispatch::plan_tool_call;
pub use dispatch::string_value_of;
pub use dispatch::tool_result_view_of;

pub use registry::ToolDefinition;
pub use registry::ToolDefinitionView;
pub use registry::ToolKind;
pub use registry::ToolRegistry;
pub use registry::bash_tool_view;
pub use registry::declarations_view;
pub use registry::lookup_tool;
pub use registry::read_tool_view;
pub use registry::standard_declarations;
pub use registry::tool_definition_factory;
pub use registry::tool_kind_of;
pub use registry::write_tool_view;

pub use args::ArgEntry;
pub use args::ToolArgs;
pub use args::entries_map;
pub use args::parsed_args;

pub use messages::AppError;
pub use messages::Choice;
pub use messages::ChoiceView;
pub use messages::FinishReason;
pub use messages::Function;
pub use messages::Message;
pub use messages::MessageView;
pub use messages::Response;
pub use messages::ToolCall;
pub use messages::ToolCallView;
pub use messages::ToolType;
pub use messages::assistant_calls_view;
pub use messages::assistant_text_view;
pub use messages::calls_view;
pub use messages::response_view;
pub use messages::tool_message_view;
pub use messages::user_message_view;
