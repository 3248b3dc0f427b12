use agent_loop::Choice;
use agent_loop::ConversationState;
use agent_loop::FinishReason;
use agent_loop::LoopError;
use agent_loop::LoopStep;
use agent_loop::Message;
use agent_loop::Response;
use agent_loop::ToolAction;
use agent_loop::ToolCall;
use agent_loop::ToolOutcome;
use agent_loop::append_tool_responses;
use agent_loop::combine_output;
use agent_loop::interpret_response;
use agent_loop::plan_tool_call;

fn single_choice(message: Message, finish_reason: FinishReason) -> Response {
    Response { choices: vec![Choice { index: 0, message, finish_reason }] }
}

#[test]
fn text_only_response_finishes() {
    let resp = single_choice(Message::assistant_text("done".to_string()), FinishReason::Stop);
    match interpret_response(resp) {
        Ok(LoopStep::Finish(text)) => assert_eq!(text, "done"),
        other => panic!("unexpected: {:?}", other),
    }
}

#[test]
fn no_choices_is_fatal() {
    let resp = Response { choices: vec![] };
    assert_eq!(interpret_response(resp).unwrap_err(), LoopError::NoChoices);
}

#[test]
fn neither_text_nor_tool_calls_is_fatal() {
    let message = Message {
        role: "assistant".to_string(),
        content: None,
        tool_calls: None,
        tool_call_id: None,
    };
    let resp = single_choice(message, FinishReason::Stop);
    assert_eq!(interpret_response(resp).unwrap_err(), LoopError::EmptyMessage);
}

#[test]
fn tool_call_response_starts_a_tool_turn() {
    let call = ToolCall::new(
        "call_a".to_string(),
        "Bash".to_string(),
        "{\"command\": \"ls\"}".to_string(),
    );
    let resp = single_choice(
        Message::assistant_tool_calls(vec![call]),
        FinishReason::ToolCalls,
    );
    match interpret_response(resp) {
        Ok(LoopStep::RunTools(calls)) => {
            assert_eq!(calls.len(), 1);
            assert_eq!(calls[0].id, "call_a");
        }
        other => panic!("unexpected: {:?}", other),
    }
}

#[test]
fn empty_tool_call_list_falls_back_to_text() {
    let message = Message {
        role: "assistant".to_string(),
        content: Some("all done".to_string()),
        tool_calls: Some(vec![]),
        tool_call_id: None,
    };
    match interpret_response(single_choice(message, FinishReason::Stop)) {
        Ok(LoopStep::Finish(text)) => assert_eq!(text, "all done"),
        other => panic!("unexpected: {:?}", other),
    }
}

#[test]
fn turn_appends_one_result_per_request_in_order() {
    let mut conv = ConversationState::new("hi".to_string());
    let calls = vec![
        ToolCall::new(
            "id_1".to_string(),
            "Read".to_string(),
            "{\"file_path\": \"a.txt\"}".to_string(),
        ),
        ToolCall::new("id_2".to_string(), "Foo".to_string(), "{}".to_string()),
    ];
    let outcomes = vec![
        ToolOutcome::Output("data".to_string()),
        ToolOutcome::Failure("never consulted".to_string()),
    ];
    append_tool_responses(&mut conv, &calls, &outcomes);
    let msgs = conv.messages();
    assert_eq!(msgs.len(), 4);
    assert_eq!(msgs[0].role, "user");
    assert_eq!(msgs[1].role, "assistant");
    let requested = msgs[1].tool_calls.as_ref().unwrap();
    assert_eq!(requested.len(), 2);
    assert_eq!(requested[0].id, "id_1");
    assert_eq!(requested[1].id, "id_2");
    assert_eq!(msgs[2].role, "tool");
    assert_eq!(msgs[2].tool_call_id.as_ref().unwrap(), "id_1");
    assert_eq!(msgs[2].content.as_ref().unwrap(), "\"data\"");
    assert_eq!(msgs[3].role, "tool");
    assert_eq!(msgs[3].tool_call_id.as_ref().unwrap(), "id_2");
    assert_eq!(msgs[3].content.as_ref().unwrap(), "\"Unknown tool: Foo\"");
}

#[test]
fn write_then_read_round_trips_content() {
    let content = "key = \"value\"\nport = 8080\n".to_string();
    let mut arg_object = serde_json::Map::new();
    arg_object.insert(
        "file_path".to_string(),
        serde_json::Value::String("conf.toml".to_string()),
    );
    arg_object.insert("content".to_string(), serde_json::Value::String(content.clone()));
    let write_call = ToolCall::new(
        "w_1".to_string(),
        "Write".to_string(),
        serde_json::Value::Object(arg_object).to_string(),
    );
    let mut store: Option<(String, String)> = None;
    match plan_tool_call(&write_call).unwrap() {
        ToolAction::WriteFile { file_path, content } => {
            store = Some((file_path, content));
        }
        other => panic!("unexpected: {:?}", other),
    }
    let (path, stored) = store.unwrap();
    assert_eq!(path, "conf.toml");
    assert_eq!(stored, content);
    let read_call = ToolCall::new(
        "r_1".to_string(),
        "Read".to_string(),
        "{\"file_path\": \"conf.toml\"}".to_string(),
    );
    match plan_tool_call(&read_call).unwrap() {
        ToolAction::ReadFile { file_path } => assert_eq!(file_path, path),
        other => panic!("unexpected: {:?}", other),
    }
    let result = agent_loop::finish_tool_call(&read_call, &ToolOutcome::Output(stored));
    let round_tripped: String = serde_json::from_str(&result.content).unwrap();
    assert_eq!(round_tripped, content);
}

#[test]
fn repeated_read_of_unchanged_outcome_is_identical() {
    let call = ToolCall::new(
        "r_2".to_string(),
        "Read".to_string(),
        "{\"file_path\": \"same.txt\"}".to_string(),
    );
    let unchanged = "stable contents".to_string();
    let first = agent_loop::finish_tool_call(&call, &ToolOutcome::Output(unchanged.clone()));
    let second = agent_loop::finish_tool_call(&call, &ToolOutcome::Output(unchanged));
    assert_eq!(first.tool_call_id, second.tool_call_id);
    assert_eq!(first.content, second.content);
}

#[test]
fn end_to_end_read_config_scenario() {
    let mut conv = ConversationState::new("What does config.txt contain?".to_string());
    let first_response = single_choice(
        Message::assistant_tool_calls(vec![ToolCall::new(
            "call_cfg".to_string(),
            "Read".to_string(),
            "{\"file_path\": \"config.txt\"}".to_string(),
        )]),
        FinishReason::ToolCalls,
    );
    let calls = match interpret_response(first_response) {
        Ok(LoopStep::RunTools(calls)) => calls,
        other => panic!("unexpected: {:?}", other),
    };
    let file_contents = "port=8080".to_string();
    let mut outcomes = Vec::new();
    for call in &calls {
        match plan_tool_call(call).unwrap() {
            ToolAction::ReadFile { file_path } => {
                assert_eq!(file_path, "config.txt");
                outcomes.push(ToolOutcome::Output(file_contents.clone()));
            }
            other => panic!("unexpected: {:?}", other),
        }
    }
    append_tool_responses(&mut conv, &calls, &outcomes);
    let msgs = conv.messages();
    assert_eq!(msgs.len(), 3);
    assert_eq!(msgs[2].content.as_ref().unwrap(), "\"port=8080\"");
    let second_response = single_choice(
        Message::assistant_text("config.txt sets port 8080.".to_string()),
        FinishReason::Stop,
    );
    match interpret_response(second_response) {
        Ok(LoopStep::Finish(text)) => assert_eq!(text, "config.txt sets port 8080."),
        other => panic!("unexpected: {:?}", other),
    }
}

#[test]
fn bash_nonzero_exit_is_not_an_error() {
    let call = ToolCall::new(
        "call_sh".to_string(),
        "Bash".to_string(),
        "{\"command\": \"exit 1\"}".to_string(),
    );
    match plan_tool_call(&call).unwrap() {
        ToolAction::RunCommand { command } => assert_eq!(command, "exit 1"),
        other => panic!("unexpected: {:?}", other),
    }
    let combined = combine_output(String::new(), "");
    assert_eq!(combined, "");
    let result = agent_loop::finish_tool_call(&call, &ToolOutcome::Output(combined));
    assert_eq!(result.content, "\"\"");
    let mut conv = ConversationState::new("run it".to_string());
    append_tool_responses(
        &mut conv,
        &vec![call],
        &vec![ToolOutcome::Output(combine_output(String::new(), ""))],
    );
    assert_eq!(conv.len(), 3);
    let next = single_choice(Message::assistant_text("ran".to_string()), FinishReason::Stop);
    assert!(matches!(interpret_response(next), Ok(LoopStep::Finish(_))));
}

#[test]
fn tool_calls_take_precedence_over_text() {
    let call = ToolCall::new(
        "call_b".to_string(),
        "Read".to_string(),
        "{\"file_path\": \"b.txt\"}".to_string(),
    );
    let message = Message {
        role: "assistant".to_string(),
        content: Some("also some text".to_string()),
        tool_calls: Some(vec![call]),
        tool_call_id: None,
    };
    match interpret_response(single_choice(message, FinishReason::ToolCalls)) {
        Ok(LoopStep::RunTools(calls)) => assert_eq!(calls[0].id, "call_b"),
        other => panic!("unexpected: {:?}", other),
    }
}

#[test]
fn only_first_choice_is_consulted() {
    let resp = Response {
        choices: vec![
            Choice {
                index: 0,
                message: Message::assistant_text("first".to_string()),
                finish_reason: FinishReason::Stop,
            },
            Choice {
                index: 1,
                message: Message::assistant_text("second".to_string()),
                finish_reason: FinishReason::Stop,
            },
        ],
    };
    match interpret_response(resp) {
        Ok(LoopStep::Finish(text)) => assert_eq!(text, "first"),
        other => panic!("unexpected: {:?}", other),
    }
}
