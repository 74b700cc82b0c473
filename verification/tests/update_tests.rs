use hstack::json::{json_eq, JsonValue};
use hstack::planner_reply::extract_first_json_value;
use hstack::ticket::TicketPayload;

fn object(text: &str) -> Vec<(String, JsonValue)> {
    match extract_first_json_value(text) {
        Some(JsonValue::Object(es)) => es,
        other => panic!("expected an object, got {:?}", other),
    }
}

fn task() -> TicketPayload {
    TicketPayload::Task {
        title: "Walk".to_string(),
        scheduled_time_iso: Some("2026-03-20T09:00:00Z".to_string()),
        rrule: None,
        duration_minutes: Some(30),
        completed: Some(false),
    }
}

#[test]
fn partial_update_sets_named_fields_only() {
    let mut p = task();
    p.apply_partial_update(&object("{\"title\": \"Walk the dog\", \"rrule\": \"DTSTART:20260322T090000Z\", \"completed\": true}"));
    match &p {
        TicketPayload::Task { title, scheduled_time_iso, rrule, duration_minutes, completed } => {
            assert_eq!(title, "Walk the dog");
            assert_eq!(scheduled_time_iso.as_deref(), Some("2026-03-20T09:00:00Z"));
            assert_eq!(rrule.as_deref(), Some("DTSTART:20260322T090000Z"));
            assert_eq!(*duration_minutes, Some(30));
            assert_eq!(*completed, Some(true));
        }
        other => panic!("expected a task, got {:?}", other),
    }
}

#[test]
fn wrong_kinds_keep_or_clear_fields() {
    let mut p = task();
    // a title that is not text is ignored; an optional field given null is cleared
    p.apply_partial_update(&object("{\"title\": 5, \"duration_minutes\": null}"));
    match &p {
        TicketPayload::Task { title, duration_minutes, .. } => {
            assert_eq!(title, "Walk");
            assert_eq!(*duration_minutes, None);
        }
        other => panic!("expected a task, got {:?}", other),
    }
}

#[test]
fn an_applied_update_matches() {
    let updates = object("{\"title\": \"Walk the dog\", \"duration_minutes\": 45}");
    let mut p = task();
    assert!(!p.matches_partial_update(&updates));
    p.apply_partial_update(&updates);
    assert!(p.matches_partial_update(&updates));
    let again = {
        let mut q = p.copy();
        q.apply_partial_update(&updates);
        q
    };
    assert!(again.same_as(&p));
}

#[test]
fn free_form_payloads_take_every_entry() {
    let mut p = TicketPayload::Generic(extract_first_json_value("{\"a\": 1, \"title\": \"x\"}").unwrap());
    let updates = object("{\"b\": [true], \"a\": 2}");
    p.apply_partial_update(&updates);
    match &p {
        TicketPayload::Generic(v) => {
            assert!(json_eq(v, &extract_first_json_value("{\"a\": 2, \"b\": [true], \"title\": \"x\"}").unwrap()))
        }
        other => panic!("expected a free-form payload, got {:?}", other),
    }
    assert!(p.matches_partial_update(&updates));
    assert_eq!(p.get_title(), "x");
}
