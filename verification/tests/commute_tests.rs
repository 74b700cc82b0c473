use hstack::commute::{
    extract_rrule_days, find_related_commute_id, infer_commute_payload_from_event, normalize_legacy_commute_payload,
    normalize_projected_tasks, commute_for_event,
};
use hstack::encode::encode_opt_departure;
use hstack::json::json_eq;
use hstack::planner_reply::extract_first_json_value;
use hstack::pending::{event_commute_step, CommuteSyncStep};
use hstack::ticket::{CommuteDepartureTime, Ticket, TicketLocation, TicketPayload, TicketType};

fn legacy_commute() -> TicketPayload {
    TicketPayload::Commute {
        title: "Commute to dinner".to_string(),
        label: Some("event_commute".to_string()),
        origin: "Current position".to_string(),
        origin_location: Some(TicketLocation::CurrentPosition { label: Some("Current position".to_string()) }),
        destination: "12 Rue de Rivoli, Paris".to_string(),
        destination_location: Some(TicketLocation::AddressText {
            address: "12 Rue de Rivoli, Paris".to_string(),
            label: None,
        }),
        departure_time: None,
        scheduled_time_iso: Some("2026-04-04T20:00:00+00:00".to_string()),
        rrule: None,
        deadline: Some("20:00".to_string()),
        days: None,
        related_event_id: Some("event-1".to_string()),
        live: None,
        minutes_remaining: None,
        directions: None,
        completed: Some(false),
    }
}

fn dinner_event() -> TicketPayload {
    TicketPayload::Event {
        title: "Team dinner".to_string(),
        scheduled_time_iso: Some("2026-03-28T19:30:00+00:00".to_string()),
        rrule: None,
        duration_minutes: Some(90),
        location: Some(TicketLocation::AddressText {
            address: "12 Rue de Rivoli, Paris".to_string(),
            label: Some("Restaurant".to_string()),
        }),
        completed: Some(false),
    }
}

#[test]
fn infers_commute_from_scheduled_event_with_location() {
    let payload = dinner_event();

    let commute = infer_commute_payload_from_event("event-1", &payload).expect("expected a commute to be inferred");

    match commute {
        TicketPayload::Commute {
            departure_time,
            destination,
            destination_location,
            related_event_id,
            scheduled_time_iso,
            ..
        } => {
            assert_eq!(destination, "12 Rue de Rivoli, Paris");
            assert_eq!(related_event_id.as_deref(), Some("event-1"));
            assert_eq!(scheduled_time_iso.as_deref(), Some("2026-03-28T19:30:00+00:00"));
            let expected = extract_first_json_value(r#"{"departure_type": "relative_to_arrival", "buffer_minutes": 10}"#).unwrap();
            assert!(json_eq(&encode_opt_departure(departure_time), &expected));
            assert!(matches!(destination_location, Some(TicketLocation::AddressText { .. })));
        }
        other => panic!("expected commute payload, got {:?}", other),
    }
}

#[test]
fn does_not_infer_commute_without_structured_destination() {
    let payload = TicketPayload::Event {
        title: "Deep work".to_string(),
        scheduled_time_iso: Some("2026-03-28T09:00:00+00:00".to_string()),
        rrule: None,
        duration_minutes: Some(120),
        location: None,
        completed: Some(false),
    };

    assert!(infer_commute_payload_from_event("event-2", &payload).is_none());
}

#[test]
fn normalizes_legacy_scheduled_commute_to_relative_departure() {
    let mut payload = legacy_commute();

    normalize_legacy_commute_payload(&mut payload);

    match payload {
        TicketPayload::Commute { departure_time, .. } => {
            let expected = extract_first_json_value(r#"{"departure_type": "relative_to_arrival", "buffer_minutes": 10}"#).unwrap();
            assert!(json_eq(&encode_opt_departure(departure_time), &expected));
        }
        other => panic!("expected commute payload, got {:?}", other),
    }
}

#[test]
fn legacy_normalization_is_idempotent_on_examples() {
    let mut once = legacy_commute();
    normalize_legacy_commute_payload(&mut once);
    let mut twice = once.copy();
    normalize_legacy_commute_payload(&mut twice);
    assert!(once.same_as(&twice));

    let mut unscheduled = legacy_commute();
    if let TicketPayload::Commute { scheduled_time_iso, .. } = &mut unscheduled {
        *scheduled_time_iso = None;
    }
    let before = unscheduled.copy();
    normalize_legacy_commute_payload(&mut unscheduled);
    assert!(before.same_as(&unscheduled));
}

#[test]
fn commute_title_days_and_deadline_follow_the_event() {
    let mut event = dinner_event();
    if let TicketPayload::Event { rrule, .. } = &mut event {
        *rrule = Some("DTSTART:20260324T083000Z\nRRULE:FREQ=WEEKLY;BYDAY=MO,XX,FR".to_string());
    }
    let commute = commute_for_event("event-9", &event, Some("19:30".to_string())).unwrap();
    match commute {
        TicketPayload::Commute { title, days, deadline, origin, label, .. } => {
            assert_eq!(title, "Commute to Team dinner");
            assert_eq!(days.as_deref(), Some("monday,friday"));
            assert_eq!(deadline.as_deref(), Some("19:30"));
            assert_eq!(origin, "Current position");
            assert_eq!(label.as_deref(), Some("event_commute"));
        }
        other => panic!("expected commute payload, got {:?}", other),
    }
    let here = TicketPayload::Event {
        title: "Call".to_string(),
        scheduled_time_iso: Some("2026-03-28T09:00:00+00:00".to_string()),
        rrule: None,
        duration_minutes: None,
        location: Some(TicketLocation::CurrentPosition { label: None }),
        completed: None,
    };
    assert!(commute_for_event("e", &here, None).is_none());
}

#[test]
fn extracts_weekdays_from_rules() {
    assert_eq!(extract_rrule_days("DTSTART:20260324T083000Z\nRRULE:FREQ=WEEKLY;BYDAY=MO,WE,FR").as_deref(), Some("monday,wednesday,friday"));
    assert_eq!(extract_rrule_days("RRULE:FREQ=DAILY").as_deref(), None);
    assert_eq!(extract_rrule_days("RRULE:BYDAY=XX").as_deref(), None);
    assert_eq!(extract_rrule_days("DTSTART:20260324T083000Z").as_deref(), None);
    assert_eq!(extract_rrule_days("RRULE:BYDAY=SU\r\n").as_deref(), Some("sunday"));
}

fn ticket(id: &str, payload: TicketPayload, ticket_type: TicketType) -> Ticket {
    let mut t = Ticket::new("x".to_string(), ticket_type, payload, None);
    t.id = id.to_string();
    t
}

#[test]
fn finds_and_syncs_the_commute_of_an_event() {
    let tasks = vec![
        ticket("e1", dinner_event(), TicketType::Event),
        ticket("c1", legacy_commute(), TicketType::Commute),
    ];
    assert_eq!(find_related_commute_id(&tasks, "event-1").as_deref(), Some("c1"));
    assert_eq!(find_related_commute_id(&tasks, "event-2"), None);

    let event = dinner_event();
    match event_commute_step(&tasks, "event-1", Some(&event)) {
        CommuteSyncStep::UpdateCommute { commute_id, .. } => assert_eq!(commute_id, "c1"),
        _ => panic!("expected an update"),
    }
    match event_commute_step(&tasks, "event-1", None) {
        CommuteSyncStep::DeleteCommute { commute_id } => assert_eq!(commute_id, "c1"),
        _ => panic!("expected a deletion"),
    }
    assert!(matches!(event_commute_step(&tasks, "event-3", Some(&event)), CommuteSyncStep::CreateCommute { .. }));
    assert!(matches!(event_commute_step(&tasks, "event-3", None), CommuteSyncStep::NoChange));

    let normalized = normalize_projected_tasks(tasks);
    match &normalized[1].payload {
        TicketPayload::Commute { departure_time, .. } => {
            assert_eq!(*departure_time, Some(CommuteDepartureTime::RelativeToArrival { buffer_minutes: 10 }))
        }
        _ => panic!("expected commute"),
    }
}
