//! The orchestration state machine: what one model response means for the
//! loop, and how a completed turn of tool calls is appended to the
//! conversation before the next model call.

use vstd::prelude::*;

use crate::conversation::ConversationState;
use crate::dispatch::ToolOutcome;
use crate::dispatch::ToolOutcomeView;
use crate::dispatch::finish_tool_call;
use crate::dispatch::tool_result_view_of;
use crate::messages::ChoiceView;
use crate::messages::Message;
use crate::messages::MessageView;
use crate::messages::Response;
use crate::messages::ToolCall;
use crate::messages::ToolCallView;
use crate::messages::assistant_calls_view;
use crate::messages::calls_view;
use crate::messages::response_view;
use crate::messages::tool_message_view;

verus! {

/// What the loop does next after one model response: run the requested
/// tool calls and ask again, or emit the final text and stop.
#[derive(Debug)]
pub enum LoopStep {
    RunTools(Vec<ToolCall>),
    Finish(String),
}

/// Mathematical model of a loop step.
#[verifier::ext_equal]
pub enum LoopStepView {
    RunTools(Seq<ToolCallView>),
    Finish(Seq<char>),
}

impl View for LoopStep {
    type V = LoopStepView;

    open spec fn view(&self) -> LoopStepView {
        match self {
            LoopStep::RunTools(calls) => LoopStepView::RunTools(calls_view(calls@)),
            LoopStep::Finish(text) => LoopStepView::Finish(text@),
        }
    }
}

/// A fatal flaw of one model response: the loop cannot make progress and
/// must surface the failure to the caller, not retry.
#[derive(Clone, Copy, Debug, PartialEq, Eq, Structural)]
pub enum LoopError {
    /// The response carried zero choices.
    NoChoices,
    /// The first choice's message carried neither tool calls nor text.
    EmptyMessage,
}

/// What one model response means for the loop: with no choices it is
/// malformed; a message carrying tool-call requests (one or more) starts a
/// tool turn; a message carrying only text finishes the loop; one with
/// neither is malformed.
pub open spec fn interpret_spec(choices: Seq<ChoiceView>) -> Result<LoopStepView, LoopError> {
    if choices.len() == 0 {
        Err(LoopError::NoChoices)
    } else {
        let message = choices[0].message;
        if message.tool_calls is Some && message.tool_calls->0.len() > 0 {
            Ok(LoopStepView::RunTools(message.tool_calls->0))
        } else if message.content is Some {
            Ok(LoopStepView::Finish(message.content->0))
        } else {
            Err(LoopError::EmptyMessage)
        }
    }
}

/// The model of an interpretation result.
pub open spec fn loop_step_result_view(r: Result<LoopStep, LoopError>) -> Result<
    LoopStepView,
    LoopError,
> {
    match r {
        Ok(step) => Ok(step@),
        Err(e) => Err(e),
    }
}

/// Reads one model response and decides the loop's next step, per
/// `interpret_spec` over the response's first choice.
pub fn interpret_response(resp: Response) -> (r: Result<LoopStep, LoopError>)
    ensures
        loop_step_result_view(r) == interpret_spec(response_view(resp)),
{
    let Response { mut choices } = resp;
    if choices.len() == 0 {
        return Err(LoopError::NoChoices);
    }
    let choice = choices.remove(0);
    let Message { role: _, content, tool_calls, tool_call_id: _ } = choice.message;
    let has_calls = match &tool_calls {
        Some(calls) => calls.len() > 0,
        None => false,
    };
    if has_calls {
        let calls = match tool_calls {
            Some(calls) => calls,
            None => Vec::new(),
        };
        Ok(LoopStep::RunTools(calls))
    } else {
        match content {
            Some(text) => Ok(LoopStep::Finish(text)),
            None => Err(LoopError::EmptyMessage),
        }
    }
}

/// The model of an outcome list.
pub open spec fn outcomes_view(outcomes: Seq<ToolOutcome>) -> Seq<ToolOutcomeView> {
    outcomes.map_values(|o: ToolOutcome| o@)
}

/// The tool message one request comes to, given the outcome of its action.
pub open spec fn tool_result_message(call: ToolCallView, outcome: ToolOutcomeView) -> MessageView {
    tool_message_view(
        tool_result_view_of(call, outcome).tool_call_id,
        tool_result_view_of(call, outcome).content,
    )
}

/// The tool messages of one turn, one per request, in request order.
pub open spec fn turn_tool_messages(calls: Seq<ToolCallView>, outcomes: Seq<ToolOutcomeView>) -> Seq<
    MessageView,
> {
    Seq::new(calls.len(), |i: int| tool_result_message(calls[i], outcomes[i]))
}

/// The conversation after one tool turn: first the assistant message
/// carrying the requests, then the tool-result messages in request order.
pub open spec fn turn_messages(
    before: Seq<MessageView>,
    calls: Seq<ToolCallView>,
    outcomes: Seq<ToolOutcomeView>,
) -> Seq<MessageView> {
    before.push(assistant_calls_view(calls)) + turn_tool_messages(calls, outcomes)
}

/// Completes one tool turn: appends the assistant message carrying the
/// requests, then one tool-result message per request, in request order,
/// each built from its action's outcome.
pub fn append_tool_responses(
    conv: &mut ConversationState,
    calls: &Vec<ToolCall>,
    outcomes: &Vec<ToolOutcome>,
)
    requires
        outcomes@.len() == calls@.len(),
    ensures
        final (conv)@ == turn_messages(old(conv)@, calls_view(calls@), outcomes_view(outcomes@)),
{
    let ghost before = conv@;
    let ghost call_views = calls_view(calls@);
    let ghost outcome_views = outcomes_view(outcomes@);
    let mut requested: Vec<ToolCall> = Vec::new();
    let mut i: usize = 0;
    while i < calls.len()
        invariant
            i <= calls@.len(),
            requested@.len() == i,
            forall|j: int| 0 <= j < i ==> requested@[j]@ == calls@[j]@,
        decreases calls@.len() - i,
    {
        requested.push(calls[i].duplicate());
        i = i + 1;
    }
    proof {
        assert(calls_view(requested@) =~= call_views);
    }
    conv.push_message(Message::assistant_tool_calls(requested));
    let mut k: usize = 0;
    while k < calls.len()
        invariant
            k <= calls@.len(),
            outcomes@.len() == calls@.len(),
            call_views == calls_view(calls@),
            outcome_views == outcomes_view(outcomes@),
            conv@ == before.push(assistant_calls_view(call_views)) + turn_tool_messages(
                call_views,
                outcome_views,
            ).take(k as int),
        decreases calls@.len() - k,
    {
        let result = finish_tool_call(&calls[k], &outcomes[k]);
        let ghost prior = conv@;
        conv.push_message(Message::tool(result.tool_call_id, result.content));
        proof {
            assert(conv@ =~= before.push(assistant_calls_view(call_views)) + turn_tool_messages(
                call_views,
                outcome_views,
            ).take(k as int + 1));
        }
        k = k + 1;
    }
    proof {
        assert(turn_tool_messages(call_views, outcome_views).take(calls@.len() as int)
            =~= turn_tool_messages(call_views, outcome_views));
    }
}

/// Law: after one tool turn, the conversation holds everything it held
/// before, unchanged, then the assistant message carrying the requests,
/// then exactly one tool-result message per request — as many results as
/// requests — each a tool message whose `tool_call_id` is the identifier
/// of its request, in request order.
pub proof fn lemma_turn_results_match_requests(
    before: Seq<MessageView>,
    calls: Seq<ToolCallView>,
    outcomes: Seq<ToolOutcomeView>,
)
    requires
        outcomes.len() == calls.len(),
    ensures
        turn_messages(before, calls, outcomes).len() == before.len() + 1 + calls.len(),
        turn_messages(before, calls, outcomes).take(before.len() as int) == before,
        turn_messages(before, calls, outcomes)[before.len() as int] == assistant_calls_view(calls),
        forall|j: int|
            before.len() + 1 <= j < turn_messages(before, calls, outcomes).len()
                ==> (#[trigger] turn_messages(before, calls, outcomes)[j]) == tool_result_message(
                calls[j - before.len() - 1],
                outcomes[j - before.len() - 1],
            ),
        forall|i: int|
            0 <= i < calls.len() ==> tool_result_message(
                (#[trigger] calls[i]),
                outcomes[i],
            ).tool_call_id == Some(calls[i].id) && tool_result_message(calls[i], outcomes[i]).role
                == "tool"@,
{
    assert(turn_messages(before, calls, outcomes).take(before.len() as int) =~= before);
}

} // verus!
