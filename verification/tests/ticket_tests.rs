use hstack::decode::decode_ticket_payload_for_type;
use hstack::encode::encode_payload;
use hstack::json::json_eq;
use hstack::planner_reply::extract_first_json_value;
use hstack::ticket::{Ticket, TicketPayload, TicketStatus, TicketType};

#[test]
fn decodes_event_payload_from_explicit_ticket_type() {
    let payload = decode_ticket_payload_for_type(&TicketType::Event, extract_first_json_value(r#"{"title": "Yoga", "duration_minutes": 60}"#).unwrap())
        .expect("payload should decode");

    match payload {
        TicketPayload::Event { title, duration_minutes, scheduled_time_iso, rrule, completed, .. } => {
            assert_eq!(title, "Yoga");
            assert_eq!(duration_minutes, Some(60));
            assert_eq!(scheduled_time_iso, None);
            assert_eq!(rrule, None);
            assert_eq!(completed, None);
        }
        other => panic!("expected event payload, got {:?}", other),
    }
}

#[test]
fn decodes_countdown_payload_from_explicit_ticket_type() {
    let payload = decode_ticket_payload_for_type(
        &TicketType::Countdown,
        extract_first_json_value(r#"{"title": "Refactor auth", "duration_minutes": 45, "expires_at": "2026-03-20T22:00:00+00:00"}"#).unwrap(),
    )
    .expect("countdown payload should decode");

    match payload {
        TicketPayload::Countdown { title, duration_minutes, expires_at } => {
            assert_eq!(title, "Refactor auth");
            assert_eq!(duration_minutes, 45);
            assert_eq!(expires_at.as_deref(), Some("2026-03-20T22:00:00+00:00"));
        }
        other => panic!("expected countdown payload, got {:?}", other),
    }
}

#[test]
fn deserializes_ticket_using_its_type_discriminator() {
    let ticket = Ticket::from_json(
        &extract_first_json_value(
            r#"{
            "id": "ticket-1",
            "type": "EVENT",
            "status": "idle",
            "payload": {
                "title": "Yoga",
                "scheduled_time_iso": "2026-03-26T09:00:00+00:00",
                "duration_minutes": 60,
                "rrule": null,
                "completed": false
            },
            "notes": null,
            "created_at": "2026-03-20T22:00:00+00:00",
            "updated_at": "2026-03-20T22:00:00+00:00",
            "title": "Yoga"
        }"#,
        )
        .unwrap(),
    )
    .expect("ticket should deserialize");

    assert_eq!(ticket.ticket_type, TicketType::Event);
    assert_eq!(ticket.status, TicketStatus::Idle);
    assert_eq!(ticket.created_at.seconds, 1774044000);
    match ticket.payload {
        TicketPayload::Event { title, scheduled_time_iso, duration_minutes, .. } => {
            assert_eq!(title, "Yoga");
            assert_eq!(scheduled_time_iso.as_deref(), Some("2026-03-26T09:00:00+00:00"));
            assert_eq!(duration_minutes, Some(60));
        }
        other => panic!("expected event payload, got {:?}", other),
    }
}

#[test]
fn rejects_tickets_with_bad_fields() {
    let no_type = extract_first_json_value(r#"{"id": "t", "status": "idle", "payload": {}, "created_at": "x", "updated_at": "x", "title": "a"}"#).unwrap();
    assert_eq!(Ticket::from_json(&no_type).unwrap_err(), "invalid or missing field `type`");
    let bad_payload = extract_first_json_value(
        r#"{"id": "t", "type": "COMMUTE", "status": "idle", "payload": {"title": "x"}, "created_at": "2026-03-20T22:00:00Z", "updated_at": "2026-03-20T22:00:00Z", "title": "a"}"#,
    )
    .unwrap();
    assert_eq!(Ticket::from_json(&bad_payload).unwrap_err(), "commute payload missing origin");
    assert!(decode_ticket_payload_for_type(&TicketType::Task, extract_first_json_value("[1]").unwrap()).is_err());
}

#[test]
fn encodes_payloads_as_json() {
    let p = TicketPayload::Countdown { title: "Tea".to_string(), duration_minutes: 5, expires_at: None };
    let expected = extract_first_json_value(r#"{"title": "Tea", "duration_minutes": 5, "expires_at": null}"#).unwrap();
    assert!(json_eq(&encode_payload(&p), &expected));
}

#[test]
fn titles_round_trip() {
    let mut p = TicketPayload::Task { title: "A".to_string(), scheduled_time_iso: None, rrule: None, duration_minutes: None, completed: None };
    p.set_title("B".to_string());
    assert_eq!(p.get_title(), "B");
    let g = TicketPayload::Generic(extract_first_json_value(r#"{"x": 1}"#).unwrap());
    assert_eq!(g.get_title(), "Untitled");
}
