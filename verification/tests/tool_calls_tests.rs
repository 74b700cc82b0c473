use hstack::clock::UtcTimestamp;
use hstack::planner_reply::extract_first_json_value;
use hstack::settings::UserSettings;
use hstack::sync::SyncActionType;
use hstack::temporal::parse_agent_rrule;
use hstack::ticket::{CommuteDepartureTime, Ticket, TicketPayload, TicketStatus, TicketType};
use hstack::tool_calls::{
    add_commute_decision, create_countdown_decision, create_ticket_decision, decide_tool_call,
    delete_all_decision, delete_ticket_decision, follow_up_failure, remove_commute_decision,
    store_failure_reply,
    tasks_unavailable_reply, ToolDecision,
};

fn ticket(id: &str, ticket_type: TicketType) -> Ticket {
    let now = UtcTimestamp { seconds: 0, nanos: 0 };
    Ticket {
        id: id.to_string(),
        title: "T".to_string(),
        ticket_type,
        status: TicketStatus::Idle,
        payload: TicketPayload::Task {
            title: "T".to_string(),
            scheduled_time_iso: None,
            rrule: None,
            duration_minutes: None,
            completed: None,
        },
        notes: None,
        created_at: now,
        updated_at: now,
    }
}

fn reply_of(d: ToolDecision) -> String {
    match d {
        ToolDecision::Reply(r) => r,
        other => panic!("expected a reply, got {:?}", other),
    }
}

#[test]
fn delete_needs_an_id_and_takes_the_ticket_type() {
    let tasks = vec![ticket("e1", TicketType::Event)];
    let missing = reply_of(delete_ticket_decision(&extract_first_json_value("{}").unwrap(), &tasks));
    assert_eq!(
        missing,
        "⚠️ Tool failed: task_id missing. The agent should identify the correct task_id from the conversation context and try again."
    );
    match delete_ticket_decision(&extract_first_json_value("{\"task_id\": \"e1\"}").unwrap(), &tasks) {
        ToolDecision::Record { change, reply, follow_up } => {
            assert_eq!(change.action_type, SyncActionType::Delete);
            assert_eq!(change.entity_id, "e1");
            assert_eq!(change.entity_type, "EVENT");
            assert!(change.payload.is_none());
            assert_eq!(reply, "Ticket deleted.");
            assert!(follow_up.is_none());
        }
        other => panic!("expected a deletion, got {:?}", other),
    }
    match delete_ticket_decision(&extract_first_json_value("{\"task_id\": \"zz\"}").unwrap(), &tasks) {
        ToolDecision::Record { change, .. } => assert_eq!(change.entity_type, "TASK"),
        other => panic!("expected a deletion, got {:?}", other),
    }
}

#[test]
fn delete_all_deletes_each_ticket() {
    assert_eq!(reply_of(delete_all_decision(&vec![])), "⚠️ Tool failed: no tickets to delete.");
    let tasks = vec![ticket("a", TicketType::Task), ticket("b", TicketType::Countdown)];
    match delete_all_decision(&tasks) {
        ToolDecision::DeleteAll { deletions, reply } => {
            assert_eq!(deletions, vec![("a".to_string(), "TASK".to_string()), ("b".to_string(), "COUNTDOWN".to_string())]);
            assert_eq!(reply, "All tickets deleted.");
        }
        other => panic!("expected deletions, got {:?}", other),
    }
}

#[test]
fn create_ticket_defaults_to_an_untitled_task() {
    let settings = UserSettings::default();
    match create_ticket_decision(&extract_first_json_value("{}").unwrap(), &settings, None, "id-1".to_string()) {
        ToolDecision::Record { change, reply, follow_up } => {
            assert_eq!(change.action_type, SyncActionType::Create);
            assert_eq!(change.entity_id, "id-1");
            assert_eq!(change.entity_type, "TASK");
            assert_eq!(change.status, Some(TicketStatus::Idle));
            match change.payload {
                Some(TicketPayload::Task { title, scheduled_time_iso, rrule, duration_minutes, completed }) => {
                    assert_eq!(title, "Untitled");
                    assert_eq!(scheduled_time_iso, None);
                    assert_eq!(rrule, None);
                    assert_eq!(duration_minutes, None);
                    assert_eq!(completed, Some(false));
                }
                other => panic!("expected a task payload, got {:?}", other),
            }
            assert_eq!(reply, "Ticket created successfully.");
            assert!(follow_up.is_none());
        }
        other => panic!("expected a creation, got {:?}", other),
    }
}

#[test]
fn create_event_reads_its_schedule_and_follows_up() {
    let settings = UserSettings::default();
    let args = extract_first_json_value(
        "{\"type\": \"event\", \"title\": \"Yoga\", \"rrule\": \"DTSTART:20260326T100000Z\", \"duration_minutes\": 120, \"notes\": \"mat\"}",
    )
    .unwrap();
    let sched = parse_agent_rrule("DTSTART:20260326T100000Z");
    match create_ticket_decision(&args, &settings, Some(sched), "ev".to_string()) {
        ToolDecision::Record { change, follow_up, .. } => {
            assert_eq!(change.entity_type, "EVENT");
            assert_eq!(change.notes.as_deref(), Some("mat"));
            match change.payload {
                Some(TicketPayload::Event { title, scheduled_time_iso, rrule, duration_minutes, .. }) => {
                    assert_eq!(title, "Yoga");
                    assert_eq!(scheduled_time_iso.as_deref(), Some("2026-03-26T10:00:00+00:00"));
                    assert_eq!(rrule, None);
                    assert_eq!(duration_minutes, Some(120));
                }
                other => panic!("expected an event payload, got {:?}", other),
            }
            let f = follow_up.expect("an event's commute follows it");
            assert_eq!(f.event_id, "ev");
            assert!(f.event_payload.is_some());
        }
        other => panic!("expected a creation, got {:?}", other),
    }
}

#[test]
fn a_bad_schedule_is_refused() {
    let settings = UserSettings::default();
    let args = extract_first_json_value("{\"title\": \"x\", \"rrule\": \"DTSTART:tomorrow\"}").unwrap();
    let sched = parse_agent_rrule("DTSTART:tomorrow");
    assert!(sched.is_err());
    let reply = reply_of(create_ticket_decision(&args, &settings, Some(sched), "id".to_string()));
    assert!(reply.starts_with("⚠️ Tool failed: "));
    assert!(reply.ends_with(". You must output a valid RFC 5545 string. Try again."));
}

#[test]
fn add_commute_builds_the_trip() {
    let settings = UserSettings::default();
    let args = extract_first_json_value(
        "{\"origin\": \"221B Baker Street, London\", \"destination\": \"10 Downing Street, London\"}",
    )
    .unwrap();
    match add_commute_decision(&args, &settings, "c1".to_string()) {
        ToolDecision::Record { change, reply, .. } => {
            assert_eq!(change.entity_type, "COMMUTE");
            assert_eq!(reply, "Commute registered.");
            match change.payload {
                Some(TicketPayload::Commute { title, label, origin, deadline, days, departure_time, completed, .. }) => {
                    assert_eq!(title, "commute: 221B Baker Stre... -> 10 Downing Stre... @ 09:00");
                    assert_eq!(label.as_deref(), Some("commute"));
                    assert_eq!(origin, "221B Baker Street, London");
                    assert_eq!(deadline.as_deref(), Some("09:00"));
                    assert_eq!(days.as_deref(), Some("monday,tuesday,wednesday,thursday,friday"));
                    assert_eq!(departure_time, Some(CommuteDepartureTime::RelativeToArrival { buffer_minutes: 10 }));
                    assert_eq!(completed, Some(false));
                }
                other => panic!("expected a commute payload, got {:?}", other),
            }
        }
        other => panic!("expected a commute, got {:?}", other),
    }
    let ambiguous = extract_first_json_value("{\"origin\": \"my place\", \"destination\": \"10 Downing Street\"}").unwrap();
    let reply = reply_of(add_commute_decision(&ambiguous, &settings, "c2".to_string()));
    assert_eq!(
        reply,
        "⚠️ Tool failed: origin location 'my place' is ambiguous; ask the user which saved place or concrete address they mean."
    );
}

#[test]
fn countdown_keeps_its_expiry() {
    let args = extract_first_json_value("{\"title\": \"Refactor auth\", \"duration_minutes\": 45}").unwrap();
    match create_countdown_decision(&args, "2026-03-20T22:00:00+00:00".to_string(), "cd".to_string()) {
        ToolDecision::Record { change, reply, .. } => {
            assert_eq!(change.entity_type, "COUNTDOWN");
            assert_eq!(reply, "Countdown created locally.");
            match change.payload {
                Some(TicketPayload::Countdown { title, duration_minutes, expires_at }) => {
                    assert_eq!(title, "Refactor auth");
                    assert_eq!(duration_minutes, 45);
                    assert_eq!(expires_at.as_deref(), Some("2026-03-20T22:00:00+00:00"));
                }
                other => panic!("expected a countdown payload, got {:?}", other),
            }
        }
        other => panic!("expected a countdown, got {:?}", other),
    }
}

#[test]
fn unknown_tools_and_failures_are_explained() {
    let settings = UserSettings::default();
    let reply = reply_of(decide_tool_call("fly", &extract_first_json_value("{}").unwrap(), &settings, &vec![]));
    assert_eq!(
        reply,
        "⚠️ Tool failed: unknown tool 'fly'. The agent should use only valid tool names from the available tool list."
    );
    match decide_tool_call("create_ticket", &extract_first_json_value("{\"title\": \"A\"}").unwrap(), &settings, &vec![]) {
        ToolDecision::Record { change, .. } => assert_eq!(change.entity_id.len(), 36),
        other => panic!("expected a creation, got {:?}", other),
    }
    assert_eq!(follow_up_failure("x"), "⚠️ Tool failed: x.");
    assert_eq!(store_failure_reply("delete_ticket", "disk"), "⚠️ Tool failed: delete_ticket. Details: disk");
    assert_eq!(
        store_failure_reply("create_ticket", "disk"),
        "⚠️ Tool failed: create_ticket. The agent should analyze this error and try again with corrected parameters or a different approach. Details: disk"
    );
    assert_eq!(tasks_unavailable_reply("gone"), "⚠️ Tool failed: Could not retrieve tasks: gone");
}

#[test]
fn countdown_defaults_to_ten_minutes() {
    let args = extract_first_json_value("{\"title\": \"Refactor auth\"}").unwrap();
    match decide_tool_call("create_agent_task", &args, &UserSettings::default(), &vec![]) {
        ToolDecision::Record { change, reply, .. } => {
            assert_eq!(change.entity_type, "COUNTDOWN");
            assert_eq!(reply, "Countdown created locally.");
            match change.payload {
                Some(TicketPayload::Countdown { title, duration_minutes, expires_at }) => {
                    assert_eq!(title, "Refactor auth");
                    assert_eq!(duration_minutes, 10);
                    assert!(expires_at.is_some());
                }
                other => panic!("expected a countdown payload, got {:?}", other),
            }
        }
        other => panic!("expected a countdown, got {:?}", other),
    }
}

#[test]
fn remove_commute_deletes_the_named_commute() {
    let args = extract_first_json_value("{\"task_id\": \"c1\"}").unwrap();
    for d in [remove_commute_decision(&args), decide_tool_call("remove_commute", &args, &UserSettings::default(), &vec![])] {
        match d {
            ToolDecision::Record { change, reply, follow_up } => {
                assert_eq!(change.action_type, SyncActionType::Delete);
                assert_eq!(change.entity_id, "c1");
                assert_eq!(change.entity_type, "COMMUTE");
                assert!(change.payload.is_none());
                assert_eq!(reply, "Commute removed.");
                assert!(follow_up.is_none());
            }
            other => panic!("expected a deletion, got {:?}", other),
        }
    }
    let missing = reply_of(remove_commute_decision(&extract_first_json_value("{}").unwrap()));
    assert!(missing.starts_with("⚠️ Tool failed: task_id missing."));
}

#[test]
fn directions_title_cuts_at_a_character_boundary() {
    let args = extract_first_json_value("{\"origin\": \"Avenue de l'Opéra\", \"destination\": \"Gare du Nord\"}").unwrap();
    match decide_tool_call("get_directions", &args, &UserSettings::default(), &vec![]) {
        ToolDecision::Record { change, .. } => {
            assert_eq!(change.entity_type, "COMMUTE");
            assert_eq!(change.status, Some(TicketStatus::InFocus));
            match change.payload {
                Some(TicketPayload::Commute { title, .. }) => {
                    assert_eq!(title, "Directions: Avenue de l'Op... -> Gare du Nord...");
                }
                other => panic!("expected a commute payload, got {:?}", other),
            }
        }
        other => panic!("expected a trip, got {:?}", other),
    }
}
