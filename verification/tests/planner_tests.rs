use hstack::json::JsonValue;
use hstack::planner::{has_matching_edit_action, validate_plan, PlannerAction, PlannerCommitment, PlannerDependencyImpact, PlannerPlan};
use hstack::planner_reply::{
    build_planner_execution_note, extract_first_json_value, install_system_prompt, planner_messages, synthetic_calls,
    PLANNER_HISTORY_LIMIT,
};
use hstack::provider::{Message, Role};
use hstack::tools::tool_schemas;

fn json(text: &str) -> JsonValue {
    extract_first_json_value(text).expect("test JSON should parse")
}

fn sample_plan() -> PlannerPlan {
    PlannerPlan {
        user_goal: "Reschedule prep work before a birthday dinner".to_string(),
        grounded_facts: vec![
            "Birthday dinner is a dated event already in the stack".to_string(),
            "Buy flowers depends on that dinner happening on time".to_string(),
        ],
        time_constraints: vec!["Dinner is next Friday at 19:00".to_string()],
        existing_tickets_relevant: vec!["event-birthday-dinner".to_string(), "task-buy-flowers".to_string()],
        dependent_tickets_impacted: vec![PlannerDependencyImpact {
            ticket_id: "task-buy-flowers".to_string(),
            title: Some("Buy flowers".to_string()),
            reason: "It is anchored to the dinner date".to_string(),
            action_required: true,
        }],
        new_commitments_detected: vec![PlannerCommitment {
            ticket_type: Some("EVENT".to_string()),
            title: Some("Birthday dinner".to_string()),
            rrule: Some("DTSTART:20260320T190000Z".to_string()),
            duration_minutes: Some(120),
        }],
        proactive_opportunities: vec!["Move flower pickup earlier in the day".to_string()],
        assumptions_to_apply: vec!["Use the existing event as the anchor".to_string()],
        tool_actions: vec![
            PlannerAction {
                tool: "create_ticket".to_string(),
                arguments: json(
                    r#"{"type": "EVENT", "title": "Birthday dinner", "rrule": "DTSTART:20260320T190000Z", "duration_minutes": 120}"#,
                ),
            },
            PlannerAction {
                tool: "edit_ticket".to_string(),
                arguments: json(r#"{"task_id": "task-buy-flowers", "rrule": "DTSTART:20260320T140000Z"}"#),
            },
        ],
        user_reply_strategy: "Explain the reschedule and confirm the new sequence briefly.".to_string(),
    }
}

#[test]
fn extracts_json_from_fenced_planner_output() {
    let parsed = extract_first_json_value("```json\n{\"user_goal\":\"Plan\"}\n```")
        .expect("expected fenced JSON to parse");

    assert_eq!(parsed.get("user_goal").and_then(|value| value.as_str()), Some("Plan"));
}

#[test]
fn extracts_json_from_plain_and_braced_output() {
    let whole = extract_first_json_value("[1, 2]").expect("plain JSON");
    assert!(whole.as_array().is_some());
    let braced = extract_first_json_value("Here it is: {\"a\": 1} thanks").expect("braced JSON");
    assert_eq!(braced.get("a").and_then(|v| v.as_i64()), Some(1));
    assert!(extract_first_json_value("no json here").is_none());
}

#[test]
fn validates_dependency_aware_plan() {
    let plan = sample_plan();

    validate_plan(plan, &tool_schemas()).expect("expected valid planner plan");
}

#[test]
fn rejects_tool_actions_without_grounded_facts() {
    let mut plan = sample_plan();
    plan.grounded_facts.clear();

    let error = validate_plan(plan, &tool_schemas()).expect_err("expected validation to fail");
    assert!(error.contains("grounded facts"));
}

#[test]
fn rejects_commitment_details_without_title() {
    let mut plan = sample_plan();
    plan.new_commitments_detected[0].title = None;

    let error = validate_plan(plan, &tool_schemas()).expect_err("expected validation to fail");
    assert!(error.contains("no title"));
}

#[test]
fn rejects_duplicate_dependent_ticket_entries() {
    let mut plan = sample_plan();
    plan.dependent_tickets_impacted.push(PlannerDependencyImpact {
        ticket_id: "task-buy-flowers".to_string(),
        title: Some("Buy flowers".to_string()),
        reason: "Duplicate reference".to_string(),
        action_required: false,
    });

    let error = validate_plan(plan, &tool_schemas()).expect_err("expected validation to fail");
    assert!(error.contains("more than once"));
}

#[test]
fn rejects_edit_without_action_required_flag() {
    let mut plan = sample_plan();
    plan.dependent_tickets_impacted[0].action_required = false;

    let error = validate_plan(plan, &tool_schemas()).expect_err("expected validation to fail");
    assert!(error.contains("action_required=true"));
}

#[test]
fn rejects_blank_goal_and_unknown_tools() {
    let mut plan = sample_plan();
    plan.user_goal = "   ".to_string();
    assert_eq!(validate_plan(plan, &tool_schemas()).unwrap_err(), "planner returned an empty user_goal");
    let mut plan = sample_plan();
    plan.tool_actions[1].tool = "teleport".to_string();
    assert!(validate_plan(plan, &tool_schemas()).is_err());
}

#[test]
fn summarises_an_executed_plan() {
    let plan = sample_plan();
    let results = vec![(
        PlannerAction { tool: "delete_ticket".to_string(), arguments: json(r#"{"task_id":"t1"}"#) },
        "Ticket deleted.".to_string(),
    )];
    let note = build_planner_execution_note(&plan, &results);
    assert!(note.starts_with("PLANNER SUMMARY:\nGoal: Reschedule prep work before a birthday dinner\nGrounded facts:\n- Birthday dinner"));
    assert!(note.contains("- Buy flowers (task-buy-flowers) => It is anchored to the dinner date [action required]"));
    assert!(note.contains("- Birthday dinner (EVENT) @ DTSTART:20260320T190000Z, duration 120 min"));
    assert!(note.contains("Executed actions:\n- delete_ticket {\"task_id\":\"t1\"} => Ticket deleted.\n"));
    assert!(note.ends_with("Do not call tools again."));

    let mut empty = sample_plan();
    empty.time_constraints.clear();
    empty.new_commitments_detected[0].title = None;
    let note = build_planner_execution_note(&empty, &[]);
    assert!(note.contains("Time constraints:\n- none\n"));
    assert!(note.contains("Detected commitments:\n- none\n"));
    assert!(note.contains("Executed actions:\n- none\n"));
}

#[test]
fn builds_calls_for_planned_actions() {
    let plan = sample_plan();
    let calls = synthetic_calls(&plan.tool_actions);
    assert_eq!(calls.len(), 2);
    assert_eq!(calls[0].function.name, "create_ticket");
    assert_eq!(calls[1].function.arguments, "{\"rrule\":\"DTSTART:20260320T140000Z\",\"task_id\":\"task-buy-flowers\"}");
    assert_eq!(calls[0].call_type, "function");
    assert_eq!(calls[0].id.len(), 36);
}

#[test]
fn planner_sees_the_last_twelve_non_system_messages() {
    let mut history = vec![Message::text(Role::System, "sys".to_string())];
    for i in 0..15 {
        history.push(Message::text(Role::User, format!("m{}", i)));
    }
    let msgs = planner_messages("plan!".to_string(), &history, "now");
    assert_eq!(PLANNER_HISTORY_LIMIT, 12);
    assert_eq!(msgs.len(), 14);
    assert_eq!(msgs[0].role, Role::System);
    assert_eq!(msgs[0].content.as_deref(), Some("plan!"));
    assert_eq!(msgs[1].content.as_deref(), Some("m3"));
    assert_eq!(msgs[12].content.as_deref(), Some("m14"));
    assert_eq!(msgs[13].role, Role::User);
    assert_eq!(msgs[13].content.as_deref(), Some("now"));
}

#[test]
fn system_prompt_is_replaced_or_inserted() {
    let mut with = vec![Message::text(Role::User, "u".to_string()), Message::text(Role::System, "old".to_string())];
    install_system_prompt(&mut with, "new".to_string());
    assert_eq!(with.len(), 2);
    assert_eq!(with[1].content.as_deref(), Some("new"));
    let mut without = vec![Message::text(Role::User, "u".to_string())];
    install_system_prompt(&mut without, "new".to_string());
    assert_eq!(without.len(), 2);
    assert_eq!(without[0].role, Role::System);
    assert_eq!(without[1].content.as_deref(), Some("u"));
}

#[test]
fn finds_edits_of_a_ticket() {
    let plan = sample_plan();
    assert!(has_matching_edit_action(&plan, "task-buy-flowers"));
    assert!(!has_matching_edit_action(&plan, "event-birthday-dinner"));
}
