use hstack::agent::{
    apply_action, AgentAction, AgentControlSystem, AllowAllControl, Error, ReadOnlyControl,
    WorkingMemory, WorkingMemoryDelta,
};
use hstack::agent_tools::{
    find_tool, response_to_action, tool_call_args, IdentityTool, InMemoryWorld, SearchStack,
    SimpleContextManager, ToolOutcome, AGENT_MAX_ITERATIONS,
};
use hstack::clock::UtcTimestamp;
use hstack::json::{json_eq, JsonValue};
use hstack::planner_reply::extract_first_json_value;
use hstack::provider::{Message, Role, ToolCall, ToolFunctionCall};
use hstack::sync::{SyncAction, SyncActionType};
use hstack::ticket::{Ticket, TicketPayload, TicketStatus, TicketType};

fn mutation(id: &str) -> SyncAction {
    SyncAction {
        action_id: id.to_string(),
        action_type: SyncActionType::Create,
        entity_id: "t1".to_string(),
        entity_type: "TASK".to_string(),
        status: None,
        payload: None,
        notes: None,
        timestamp: "now".to_string(),
    }
}

fn call(id: &str, name: &str, args: &str) -> ToolCall {
    ToolCall {
        id: id.to_string(),
        call_type: "function".to_string(),
        function: ToolFunctionCall { name: name.to_string(), arguments: args.to_string() },
    }
}

fn assistant(content: &str, calls: Vec<ToolCall>) -> Message {
    Message {
        role: Role::Assistant,
        content: Some(content.to_string()),
        tool_calls: Some(calls),
        tool_call_id: None,
        name: None,
    }
}

fn ticket(id: &str, title: &str, notes: Option<&str>) -> Ticket {
    let now = UtcTimestamp { seconds: 0, nanos: 0 };
    Ticket {
        id: id.to_string(),
        title: title.to_string(),
        ticket_type: TicketType::Task,
        status: TicketStatus::Idle,
        payload: TicketPayload::Task {
            title: title.to_string(),
            scheduled_time_iso: None,
            rrule: None,
            duration_minutes: None,
            completed: None,
        },
        notes: notes.map(|n| n.to_string()),
        created_at: now,
        updated_at: now,
    }
}

#[test]
fn agent_run_completion_stops_with_the_answer() {
    let args = extract_first_json_value("{\"answer\": \"Task complete!\"}").unwrap();
    let action = IdentityTool.execute(&args);
    let reply = assistant("I have finished the task.", vec![call("call_123", "identity", "{\"answer\": \"Task complete!\"}")]);
    let whole = response_to_action(reply, vec![ToolOutcome::Action(action)]);
    let mut memory = WorkingMemory::new();
    let mut deltas = Vec::new();
    let answer = apply_action(&AllowAllControl, whole, &mut memory, &mut deltas).unwrap();
    assert_eq!(answer, Some("Task complete!".to_string()));
    assert_eq!(memory.messages.len(), 1);
    assert!(deltas.is_empty());
}

#[test]
fn identity_without_answer_says_done() {
    match IdentityTool.execute(&JsonValue::Null) {
        AgentAction::Stop(a) => assert_eq!(a, "Done"),
        other => panic!("expected a stop, got {:?}", other),
    }
}

#[test]
fn agent_delta_collection_goes_through_the_control() {
    let whole = AgentAction::Compound(vec![
        AgentAction::UpdateStack(mutation("act_1")),
        AgentAction::Stop("Done mutating".to_string()),
    ]);
    let mut memory = WorkingMemory::new();
    let mut deltas = Vec::new();
    let answer = apply_action(&AllowAllControl, whole, &mut memory, &mut deltas).unwrap();
    assert_eq!(answer, Some("Done mutating".to_string()));
    assert_eq!(deltas.len(), 1);
    assert_eq!(deltas[0].action_id, "act_1");
}

#[test]
fn read_only_control_refuses_stack_changes() {
    let whole = AgentAction::Compound(vec![
        AgentAction::UpdateWorkingMemory(WorkingMemoryDelta::AppendMessage(Message::text(Role::User, "hi".to_string()))),
        AgentAction::UpdateStack(mutation("act_1")),
        AgentAction::Stop("never".to_string()),
    ]);
    let mut memory = WorkingMemory::new();
    let mut deltas = Vec::new();
    match apply_action(&ReadOnlyControl, whole, &mut memory, &mut deltas) {
        Err(Error::Denied(m)) => assert_eq!(m, "Sync action \"act_1\" is forbidden in read-only mode"),
        other => panic!("expected a refusal, got {:?}", other),
    }
    assert!(deltas.is_empty());
    assert_eq!(memory.messages.len(), 1);
    assert!(ReadOnlyControl.validate_stack_action(&mutation("x")).is_err());
    assert!(AllowAllControl.validate_stack_action(&mutation("x")).is_ok());
}

#[test]
fn search_records_results_under_its_query() {
    let world = InMemoryWorld {
        tickets: vec![ticket("a", "Buy Flowers", None), ticket("b", "Gym", Some("test the new shoes"))],
    };
    let args = extract_first_json_value("{\"query\": \"test\"}").unwrap();
    let q = SearchStack.query(&args);
    assert_eq!(q, "test");
    let found = world.search_tickets(&q);
    assert_eq!(found.len(), 1);
    assert_eq!(found[0].id, "b");
    assert_eq!(world.search_tickets("FLOWERS").len(), 1);
    match SearchStack.execute_with(&q, Ok(found)) {
        Ok(AgentAction::UpdateWorkingMemory(WorkingMemoryDelta::AddTechnicalNoise(k, v))) => {
            assert_eq!(k, "search_stack:test");
            match v {
                JsonValue::Array(items) => assert_eq!(items.len(), 1),
                other => panic!("expected an array, got {:?}", other),
            }
        }
        other => panic!("expected a note, got {:?}", other),
    }
    match SearchStack.execute_with("x", Err("down".to_string())) {
        Err(Error::World(m)) => assert_eq!(m, "down"),
        other => panic!("expected a world error, got {:?}", other),
    }
    assert_eq!(world.get_tickets().len(), 2);
}

#[test]
fn unknown_tools_and_empty_replies() {
    let reply = Message { role: Role::Assistant, content: None, tool_calls: None, tool_call_id: None, name: None };
    match response_to_action(reply, vec![]) {
        AgentAction::Stop(s) => assert_eq!(s, "Agent stalled"),
        other => panic!("expected a stall, got {:?}", other),
    }
    let reply = Message { role: Role::Assistant, content: None, tool_calls: None, tool_call_id: None, name: None };
    match response_to_action(reply, vec![ToolOutcome::UnknownTool("nope".to_string())]) {
        AgentAction::UpdateWorkingMemory(WorkingMemoryDelta::AddTechnicalNoise(k, v)) => {
            assert_eq!(k, "nope");
            assert!(json_eq(&v, &extract_first_json_value("{\"error\":\"Unknown tool\"}").unwrap()));
        }
        other => panic!("expected a note, got {:?}", other),
    }
    let names = vec!["identity".to_string(), "search_stack".to_string()];
    assert_eq!(find_tool(&names, "search_stack"), Some(1));
    assert_eq!(find_tool(&names, "other"), None);
    assert_eq!(AGENT_MAX_ITERATIONS, 10);
}

#[test]
fn tool_arguments_fall_back_to_null() {
    let good = call("c", "identity", "{\"answer\": \"x\"}");
    assert!(json_eq(&tool_call_args(&good), &extract_first_json_value("{\"answer\":\"x\"}").unwrap()));
    let bad = call("c", "identity", "{not json");
    assert!(matches!(tool_call_args(&bad), JsonValue::Null));
}

#[test]
fn context_starts_with_the_system_prompt() {
    let mut memory = WorkingMemory::new();
    memory.messages.push(Message::text(Role::User, "hello".to_string()));
    let msgs = SimpleContextManager.construct_context(&vec![], &memory, "You are a helpful assistant.");
    assert_eq!(msgs.len(), 2);
    assert_eq!(msgs[0].role, Role::System);
    assert_eq!(
        msgs[0].content.as_deref(),
        Some("You are a helpful assistant.\n\nCURRENT STACK CONTEXT:\n[]\n\nRECENT THOUGHTS:\n[]")
    );
    assert_eq!(msgs[1].content.as_deref(), Some("hello"));
}

#[test]
fn iteration_budget_stops_after_its_rounds() {
    let mut b = hstack::agent::IterationBudget::new(2);
    assert!(b.next_round().is_ok());
    assert!(b.next_round().is_ok());
    assert!(matches!(b.next_round(), Err(Error::MaxIterations)));
    assert_eq!(b.used, 2);
}
