use hstack::chat::{
    chat_step, extract_single_tool_call, extract_tool_calls_from_json, last_occurrence,
    next_occurrence, record_tool_result, recover_tool_calls, refresh_system_context,
    tool_calls_for_reply, ChatTurn, CHAT_MAX_ITERATIONS,
};
use hstack::planner_reply::extract_first_json_value;
use hstack::provider::{Message, Role, ToolCall, ToolFunctionCall};

fn names_and_args(calls: &[ToolCall]) -> Vec<(String, String)> {
    calls
        .iter()
        .map(|c| {
            assert_eq!(c.call_type, "function");
            assert_eq!(c.id.len(), 36);
            (c.function.name.clone(), c.function.arguments.clone())
        })
        .collect()
}

fn pair(a: &str, b: &str) -> (String, String) {
    (a.to_string(), b.to_string())
}

#[test]
fn recovers_a_call_written_as_json() {
    let calls = recover_tool_calls("{\"name\": \"create_ticket\", \"arguments\": {\"title\": \"Walk\"}}");
    assert_eq!(names_and_args(&calls), vec![pair("create_ticket", "{\"title\":\"Walk\"}")]);
}

#[test]
fn recovers_each_call_of_an_array_and_keeps_text_arguments() {
    let calls = recover_tool_calls(
        "[{\"name\": \"a\", \"arguments\": \"{\\\"x\\\": 1}\"}, {\"arguments\": {}}, {\"name\": \"b\"}]",
    );
    assert_eq!(names_and_args(&calls), vec![pair("a", "{\"x\": 1}"), pair("b", "null")]);
}

#[test]
fn recovers_calls_from_fenced_blocks() {
    let text = "Sure!\n```json\n{\"name\": \"a\", \"arguments\": {}}\n```\nand\n```\n{\"name\": \"b\", \"arguments\": {\"k\": true}}\n```";
    let calls = recover_tool_calls(text);
    assert_eq!(names_and_args(&calls), vec![pair("a", "{}"), pair("b", "{\"k\":true}")]);
}

#[test]
fn recovers_a_call_between_braces() {
    let calls = recover_tool_calls("I will call {\"name\": \"delete_ticket\", \"arguments\": {\"task_id\": \"t1\"}} now.");
    assert_eq!(names_and_args(&calls), vec![pair("delete_ticket", "{\"task_id\":\"t1\"}")]);
}

#[test]
fn plain_text_asks_for_no_tool() {
    assert!(recover_tool_calls("Hello there").is_empty());
    assert!(recover_tool_calls("} backwards {").is_empty());
    assert!(recover_tool_calls("```json\nnot json\n```").is_empty());
}

#[test]
fn single_call_needs_a_name() {
    let mut calls = Vec::new();
    extract_single_tool_call(&extract_first_json_value("{\"arguments\": {}}").unwrap(), &mut calls);
    extract_single_tool_call(&extract_first_json_value("[1]").unwrap(), &mut calls);
    assert!(calls.is_empty());
    extract_tool_calls_from_json(&extract_first_json_value("{\"name\": \"x\", \"arguments\": 3}").unwrap(), &mut calls);
    assert_eq!(names_and_args(&calls), vec![pair("x", "3")]);
}

#[test]
fn finds_occurrences() {
    let s: Vec<char> = "ab```cd```".chars().collect();
    let p: Vec<char> = "```".chars().collect();
    assert_eq!(next_occurrence(&s, &p, 0), Some(2));
    assert_eq!(next_occurrence(&s, &p, 3), Some(7));
    assert_eq!(next_occurrence(&s, &p, 8), None);
    assert_eq!(last_occurrence(&s, 'c'), Some(5));
    assert_eq!(last_occurrence(&s, 'z'), None);
}

fn assistant(content: Option<&str>, calls: Option<Vec<ToolCall>>) -> Message {
    Message {
        role: Role::Assistant,
        content: content.map(|c| c.to_string()),
        tool_calls: calls,
        tool_call_id: None,
        name: None,
    }
}

fn native(id: &str, name: &str, args: &str) -> ToolCall {
    ToolCall {
        id: id.to_string(),
        call_type: "function".to_string(),
        function: ToolFunctionCall { name: name.to_string(), arguments: args.to_string() },
    }
}

#[test]
fn a_plain_reply_ends_the_turn() {
    let mut messages = vec![Message::text(Role::User, "hi".to_string())];
    match chat_step(&mut messages, assistant(Some("Hello!"), None)) {
        ChatTurn::Done(m) => assert_eq!(m.content.as_deref(), Some("Hello!")),
        ChatTurn::CallTools(_) => panic!("expected the turn to end"),
    }
    assert_eq!(messages.len(), 2);
    assert_eq!(messages[1].content.as_deref(), Some("Hello!"));
    assert_eq!(CHAT_MAX_ITERATIONS, 5);
}

#[test]
fn native_calls_are_kept_and_recorded() {
    let mut messages = Vec::new();
    let reply = assistant(None, Some(vec![native("call_1", "delete_ticket", "{\"task_id\":\"t\"}")]));
    let calls = match chat_step(&mut messages, reply) {
        ChatTurn::CallTools(calls) => calls,
        ChatTurn::Done(_) => panic!("expected tool calls"),
    };
    assert_eq!(calls.len(), 1);
    assert_eq!(calls[0].id, "call_1");
    assert_eq!(messages[0].tool_calls.as_ref().map(|c| c.len()), Some(1));

    record_tool_result(&mut messages, &calls[0], Ok("Ticket deleted.".to_string()));
    record_tool_result(&mut messages, &calls[0], Err("boom".to_string()));
    assert_eq!(messages.len(), 3);
    assert_eq!(messages[1].role, Role::Tool);
    assert_eq!(messages[1].content.as_deref(), Some("Ticket deleted."));
    assert_eq!(messages[1].tool_call_id.as_deref(), Some("call_1"));
    assert_eq!(messages[1].name.as_deref(), Some("delete_ticket"));
    assert_eq!(messages[2].content.as_deref(), Some("Error executing tool: boom"));
}

#[test]
fn calls_written_in_the_text_are_attached_to_the_reply() {
    let mut messages = Vec::new();
    let reply = assistant(Some("{\"name\": \"create_ticket\", \"arguments\": {\"title\": \"A\"}}"), Some(vec![]));
    let calls = tool_calls_for_reply(&reply);
    assert_eq!(names_and_args(&calls), vec![pair("create_ticket", "{\"title\":\"A\"}")]);
    match chat_step(&mut messages, reply) {
        ChatTurn::CallTools(calls) => assert_eq!(calls[0].function.name, "create_ticket"),
        ChatTurn::Done(_) => panic!("expected tool calls"),
    }
    let attached = messages[0].tool_calls.as_ref().unwrap();
    assert_eq!(attached[0].function.name, "create_ticket");
}

#[test]
fn refreshes_only_the_first_system_message() {
    let mut messages = vec![
        Message::text(Role::User, "u".to_string()),
        Message::text(Role::System, "old".to_string()),
        Message::text(Role::System, "older".to_string()),
    ];
    refresh_system_context(&mut messages, "fresh".to_string());
    assert_eq!(messages[1].content.as_deref(), Some("fresh"));
    assert_eq!(messages[2].content.as_deref(), Some("older"));
    let mut none = vec![Message::text(Role::User, "u".to_string())];
    refresh_system_context(&mut none, "fresh".to_string());
    assert_eq!(none.len(), 1);
    assert_eq!(none[0].content.as_deref(), Some("u"));
}
