use hstack::clock::UtcTimestamp;
use hstack::decode::{decode_departure_time, decode_location, decode_ticket_payload_for_type};
use hstack::encode::{
    encode_departure, encode_location, encode_payload, encode_ticket, encode_tickets, ticket_status_name,
    ticket_type_name,
};
use hstack::json::{json_clone, json_eq, JsonValue};
use hstack::planner::PlannerAction;
use hstack::planner_reply::{extract_first_json_value, synthetic_calls};
use hstack::ticket::{CommuteDepartureTime, Ticket, TicketLocation, TicketPayload, TicketStatus, TicketType};

fn json(text: &str) -> JsonValue {
    extract_first_json_value(text).expect("test JSON should parse")
}

#[test]
fn reads_and_writes_json_text() {
    let v = json("{\"b\": [1, -2, 2.5, true, null], \"a\": \"x\"}");
    let calls = synthetic_calls(&vec![PlannerAction { tool: "t".to_string(), arguments: json_clone(&v) }]);
    assert_eq!(calls[0].function.arguments, "{\"a\":\"x\",\"b\":[1,-2,2.5,true,null]}");
    assert!(extract_first_json_value("{not json").is_none());
    assert_eq!(v.get_string("a"), Some("x".to_string()));
    assert_eq!(v.get_string("b"), None);
    assert_eq!(json("{\"n\": -7}").get_i64("n"), Some(-7));
    assert_eq!(json("{\"f\": true}").get_bool("f"), Some(true));
    assert!(json("null").is_null());
    assert!(json("[]").as_array().map(|a| a.is_empty()).unwrap_or(false));
    assert!(json_eq(&json_clone(&v), &v));
    assert!(!json_eq(&json("1"), &json("2")));
}

#[test]
fn locations_round_trip() {
    let locations = vec![
        TicketLocation::SavedLocation { location_id: "loc-home".to_string(), label: Some("Home".to_string()) },
        TicketLocation::AddressText { address: "12 Rue de Rivoli, Paris".to_string(), label: None },
        TicketLocation::PlaceId { place_id: "abc".to_string(), label: None },
        TicketLocation::CurrentPosition { label: None },
        TicketLocation::Coordinates { latitude: "48.85".to_string(), longitude: "2.35".to_string(), label: None },
    ];
    for l in &locations {
        let back = decode_location(&encode_location(l)).expect("an encoded location reads back");
        assert!(back.same_as(l), "{:?} came back as {:?}", l, back);
    }
    assert!(json_eq(
        &encode_location(&locations[1]),
        &json("{\"location_type\":\"address_text\",\"address\":\"12 Rue de Rivoli, Paris\",\"label\":null}")
    ));
    assert!(decode_location(&json("{\"location_type\":\"teleport\"}")).is_none());
}

#[test]
fn departure_rules_round_trip() {
    let d = CommuteDepartureTime::RelativeToArrival { buffer_minutes: 15 };
    assert!(json_eq(&encode_departure(d), &json("{\"departure_type\":\"relative_to_arrival\",\"buffer_minutes\":15}")));
    assert_eq!(decode_departure_time(&encode_departure(d)), Some(d));
}

#[test]
fn instants_are_written_in_utc() {
    let t = Ticket {
        id: "x".to_string(),
        title: "x".to_string(),
        ticket_type: TicketType::Task,
        status: TicketStatus::Idle,
        payload: TicketPayload::Generic(json("{}")),
        notes: None,
        created_at: UtcTimestamp { seconds: 1774044000, nanos: 0 },
        updated_at: UtcTimestamp { seconds: 1774044000, nanos: 0 },
    };
    assert_eq!(encode_ticket(&t).get_string("created_at"), Some("2026-03-20T22:00:00Z".to_string()));
    let shifted = json(
        "{\"id\":\"x\",\"title\":\"x\",\"type\":\"TASK\",\"status\":\"idle\",\"payload\":{\"title\":\"x\"},\"created_at\":\"2026-03-20T23:00:00+01:00\",\"updated_at\":\"2026-03-20T22:00:00Z\"}",
    );
    let read = Ticket::from_json(&shifted).expect("a ticket with offset instants reads");
    assert_eq!(read.created_at, UtcTimestamp { seconds: 1774044000, nanos: 0 });
    let bad = json(
        "{\"id\":\"x\",\"title\":\"x\",\"type\":\"TASK\",\"status\":\"idle\",\"payload\":{\"title\":\"x\"},\"created_at\":\"yesterday\",\"updated_at\":\"2026-03-20T22:00:00Z\"}",
    );
    assert!(Ticket::from_json(&bad).is_err());
}

#[test]
fn tickets_round_trip() {
    let t = Ticket {
        id: "ticket-1".to_string(),
        title: "Yoga".to_string(),
        ticket_type: TicketType::Event,
        status: TicketStatus::InFocus,
        payload: TicketPayload::Event {
            title: "Yoga".to_string(),
            scheduled_time_iso: Some("2026-03-26T09:00:00+00:00".to_string()),
            rrule: None,
            duration_minutes: Some(60),
            location: None,
            completed: Some(false),
        },
        notes: Some("bring a mat".to_string()),
        created_at: UtcTimestamp { seconds: 1774044000, nanos: 0 },
        updated_at: UtcTimestamp { seconds: 1774044060, nanos: 0 },
    };
    let back = Ticket::from_json(&encode_ticket(&t)).expect("an encoded ticket reads back");
    assert_eq!(back.id, t.id);
    assert_eq!(back.title, t.title);
    assert_eq!(back.ticket_type, t.ticket_type);
    assert_eq!(back.status, t.status);
    assert!(back.payload.same_as(&t.payload));
    assert_eq!(back.notes, t.notes);
    assert_eq!(back.created_at, t.created_at);
    assert_eq!(back.updated_at, t.updated_at);
    assert_eq!(ticket_type_name(TicketType::Countdown), "COUNTDOWN");
    assert_eq!(ticket_status_name(TicketStatus::InFocus), "in_focus");
    match encode_tickets(&vec![t]) {
        JsonValue::Array(items) => assert_eq!(items.len(), 1),
        other => panic!("expected an array, got {:?}", other),
    }
}

#[test]
fn payloads_read_back_for_their_type() {
    let payloads = vec![
        (
            TicketType::Commute,
            TicketPayload::Commute {
                title: "Commute".to_string(),
                label: Some("work".to_string()),
                origin: "Home".to_string(),
                origin_location: Some(TicketLocation::SavedLocation { location_id: "loc-home".to_string(), label: Some("Home".to_string()) }),
                destination: "Office".to_string(),
                destination_location: Some(TicketLocation::AddressText { address: "1 Main St".to_string(), label: None }),
                departure_time: Some(CommuteDepartureTime::RelativeToArrival { buffer_minutes: -5 }),
                scheduled_time_iso: None,
                rrule: Some("FREQ=DAILY".to_string()),
                deadline: Some("09:00".to_string()),
                days: None,
                related_event_id: Some("ev".to_string()),
                live: Some(true),
                minutes_remaining: Some(12),
                directions: Some(json("{\"steps\": []}")),
                completed: None,
            },
        ),
        (
            TicketType::Countdown,
            TicketPayload::Countdown { title: "Build".to_string(), duration_minutes: 45, expires_at: None },
        ),
        (
            TicketType::Habit,
            TicketPayload::Habit { title: "Run".to_string(), scheduled_time_iso: None, rrule: None, completed: Some(true) },
        ),
    ];
    for (ty, p) in payloads {
        let back = decode_ticket_payload_for_type(&ty, encode_payload(&p)).expect("a written payload reads back");
        assert!(back.same_as(&p), "{:?} came back as {:?}", p, back);
    }
}

#[test]
fn negative_zero_equals_zero_but_keeps_its_sign() {
    let neg = JsonValue::Float("-0.0".to_string());
    let pos = JsonValue::Float("0.0".to_string());
    assert!(json_eq(&neg, &pos));
    assert!(TicketPayload::Generic(json_clone(&neg)).same_as(&TicketPayload::Generic(pos)));
    match json_clone(&neg) {
        JsonValue::Float(t) => assert_eq!(t, "-0.0"),
        other => panic!("expected a float, got {:?}", other),
    }
}
