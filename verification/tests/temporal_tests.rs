use hstack::clock::UtcTimestamp;
use hstack::temporal::{parse_agent_rrule, parse_dtstart_value};

#[test]
fn parses_dtstart_only_as_one_time_schedule() {
    let (start, rrule) = parse_agent_rrule("DTSTART:20260326T100000Z").expect("dtstart-only schedule should parse");

    assert_eq!(start, UtcTimestamp { seconds: 1774519200, nanos: 0 });
    assert_eq!(rrule, None);
}

#[test]
fn normalizes_missing_z_for_dtstart_only_schedule() {
    let (start, rrule) = parse_agent_rrule("DTSTART:20260326T100000").expect("dtstart-only schedule without z should parse");

    assert_eq!(start, UtcTimestamp { seconds: 1774519200, nanos: 0 });
    assert_eq!(rrule, None);
}

#[test]
fn preserves_recurrence_when_rrule_is_present() {
    let (start, rrule) = parse_agent_rrule("DTSTART:20260324T083000Z RRULE:FREQ=WEEKLY;BYDAY=MO,WE,FR")
        .expect("recurring schedule should parse");

    assert_eq!(start, UtcTimestamp { seconds: 1774341000, nanos: 0 });
    let normalized = rrule.expect("rrule should be preserved for recurring schedules");
    assert!(normalized.starts_with("DTSTART:20260324T083000Z\nRRULE:FREQ=WEEKLY"));
    assert!(normalized.contains("BYDAY=MO,WE,FR"));
}

#[test]
fn reports_schedule_errors_with_the_input() {
    let missing = parse_agent_rrule("tomorrow at nine").unwrap_err();
    assert_eq!(
        missing,
        "Agent generated invalid RFC 5545 string: missing DTSTART (Input: tomorrow at nine)"
    );
    let bad = parse_agent_rrule("DTSTART:2026").unwrap_err();
    assert!(bad.starts_with("Agent generated invalid RFC 5545 string: invalid DTSTART value: "));
    assert!(bad.ends_with("(Input: DTSTART:2026Z)"));
    let short = parse_agent_rrule("DTSTART:20260326T1000Z").unwrap();
    assert_eq!(short.0, UtcTimestamp { seconds: 1774519200, nanos: 0 });
}

#[test]
fn weekday_cut_inside_a_character_is_refused() {
    let r = parse_agent_rrule("DTSTART:20260320T140000Z\nRRULE:FREQ=WEEKLY;BYDAY=1€");
    match r {
        Err(e) => assert!(e.starts_with("Agent generated invalid RFC 5545 string: a weekday ends inside a multi-byte character")),
        Ok(_) => panic!("expected an error"),
    }
    assert!(hstack::temporal::has_unsafe_weekday_cut("BYDAY=éA"));
    assert!(!hstack::temporal::has_unsafe_weekday_cut("BYDAY=MO,TU;X=é"));
}

#[test]
fn dtstart_value_reads_with_or_without_seconds() {
    assert_eq!(parse_dtstart_value("20260326T100000Z").unwrap(), UtcTimestamp { seconds: 1774519200, nanos: 0 });
    assert_eq!(parse_dtstart_value("20260326T1000Z").unwrap(), UtcTimestamp { seconds: 1774519200, nanos: 0 });
    assert!(parse_dtstart_value("tomorrow").is_err());
}
