use hstack::planner_reply::extract_first_json_value;
use hstack::json::JsonValue;
use hstack::locations::{
    format_saved_locations_for_prompt, resolve_commute_location, location_display_text, normalize_location_key,
    is_ambiguous_location_text, normalize_address_text_location, find_saved_location_by_label,
    find_saved_location_by_id, resolve_saved_location_reference, resolve_location_object,
    parse_location_arg, resolve_event_location,
};
use hstack::settings::{SavedLocation, UserSettings};
use hstack::ticket::TicketLocation;

fn json(text: &str) -> JsonValue {
    extract_first_json_value(text).expect("test JSON should parse")
}

fn settings_with_home() -> UserSettings {
    let mut settings = UserSettings::default();
    settings.saved_locations.push(SavedLocation {
        id: "loc-home".to_string(),
        label: "Home".to_string(),
        location: TicketLocation::AddressText {
            address: "12 Rue de Rivoli, Paris".to_string(),
            label: None,
        },
    });
    settings
}

#[test]
fn formats_saved_locations_for_prompt_context() {
    let rendered = format_saved_locations_for_prompt(&settings_with_home().saved_locations);

    assert!(rendered.contains("loc-home"));
    assert!(rendered.contains("Home"));
    assert!(rendered.contains("12 Rue de Rivoli, Paris"));
}

#[test]
fn formats_saved_locations_exactly() {
    assert_eq!(format_saved_locations_for_prompt(&[]), "- None");
    let mut settings = settings_with_home();
    settings.saved_locations.push(SavedLocation {
        id: "loc-gym".to_string(),
        label: "Gym".to_string(),
        location: TicketLocation::SavedLocation { location_id: "loc-home".to_string(), label: None },
    });
    assert_eq!(
        format_saved_locations_for_prompt(&settings.saved_locations),
        "- loc-home | Home | 12 Rue de Rivoli, Paris\n- loc-gym | Gym | loc-home"
    );
}

#[test]
fn normalizes_text_commute_locations_to_address_text() {
    let settings = UserSettings::default();
    let args = json(r#"{"origin": "221B Baker Street, London"}"#);

    let (display, location) = resolve_commute_location(&args, "origin_location", "origin", "origin location", &settings)
        .expect("expected strict location normalization to succeed");

    assert_eq!(display, "221B Baker Street, London");
    assert!(location.same_as(&TicketLocation::AddressText {
        address: "221B Baker Street, London".to_string(),
        label: None,
    }));
}

#[test]
fn rejects_mismatched_text_and_structured_commute_locations() {
    let settings = UserSettings::default();
    let args = json(
        r#"{"origin": "Current position", "origin_location": {"location_type": "address_text", "address": "10 Downing Street, London"}}"#,
    );

    let error = resolve_commute_location(&args, "origin_location", "origin", "origin location", &settings)
        .expect_err("expected mismatch to fail");

    assert!(error.contains("does not match structured location"));
}

#[test]
fn rejects_saved_location_labels_as_raw_text() {
    let settings = settings_with_home();
    let args = json(r#"{"origin": "Home"}"#);

    let error = resolve_commute_location(&args, "origin_location", "origin", "origin location", &settings)
        .expect_err("expected saved-location raw text to fail");

    assert!(error.contains("use location_id"));
}

#[test]
fn rejects_ambiguous_raw_location_text() {
    let settings = UserSettings::default();
    let args = json(r#"{"origin": "my place"}"#);

    let error = resolve_commute_location(&args, "origin_location", "origin", "origin location", &settings)
        .expect_err("expected ambiguous location text to fail");

    assert!(error.contains("ambiguous"));
}

#[test]
fn commute_location_error_messages_are_exact() {
    let settings = settings_with_home();
    let missing = resolve_commute_location(&json("{}"), "origin_location", "origin", "origin location", &settings);
    assert_eq!(missing.unwrap_err(), "missing origin location");
    let blank = resolve_commute_location(
        &json(r#"{"origin": "  ", "origin_location": {"location_type": "current_position"}}"#),
        "origin_location",
        "origin",
        "origin location",
        &settings,
    );
    assert_eq!(blank.unwrap_err(), "origin location text must not be empty");
    let invalid = resolve_commute_location(&json(r#"{"origin_location": 5}"#), "origin_location", "origin", "origin location", &settings);
    assert_eq!(invalid.unwrap_err(), "invalid origin location value");
    let unknown = resolve_commute_location(
        &json(r#"{"origin_location": {"location_type": "saved_location", "location_id": "loc-x"}}"#),
        "origin_location",
        "origin",
        "origin location",
        &settings,
    );
    assert_eq!(unknown.unwrap_err(), "unknown origin location location_id 'loc-x'");
    let mismatch = resolve_commute_location(
        &json(r#"{"origin": "Elsewhere", "origin_location": {"location_type": "address_text", "address": "1 Main St"}}"#),
        "origin_location",
        "origin",
        "origin location",
        &settings,
    );
    assert_eq!(
        mismatch.unwrap_err(),
        "origin location text 'Elsewhere' does not match structured location '1 Main St'"
    );
}

#[test]
fn saved_reference_accepts_its_own_label_as_text() {
    let settings = settings_with_home();
    let args = json(
        r#"{"origin": "Home", "origin_location": {"location_type": "saved_location", "location_id": "loc-home"}}"#,
    );
    let (display, location) =
        resolve_commute_location(&args, "origin_location", "origin", "origin location", &settings).unwrap();
    assert_eq!(display, "12 Rue de Rivoli, Paris");
    assert!(location.same_as(&TicketLocation::SavedLocation {
        location_id: "loc-home".to_string(),
        label: Some("Home".to_string()),
    }));
}

#[test]
fn displays_each_kind_of_location() {
    let coords = TicketLocation::Coordinates { latitude: "48.85".to_string(), longitude: "2.35".to_string(), label: None };
    assert_eq!(location_display_text(&coords), "48.85, 2.35");
    let here = TicketLocation::CurrentPosition { label: None };
    assert_eq!(location_display_text(&here), "Current position");
    let place = TicketLocation::PlaceId { place_id: "p-1".to_string(), label: Some("Cafe".to_string()) };
    assert_eq!(location_display_text(&place), "Cafe");
    let saved = TicketLocation::SavedLocation { location_id: "loc-1".to_string(), label: None };
    assert_eq!(location_display_text(&saved), "loc-1");
}

#[test]
fn normalizes_keys_and_spots_ambiguous_words() {
    assert_eq!(normalize_location_key("  My Home "), "my home");
    assert!(is_ambiguous_location_text(" WORK "));
    assert!(!is_ambiguous_location_text("10 Downing Street"));
    assert_eq!(normalize_address_text_location("   ", "origin").unwrap_err(), "origin must not be empty");
    let loc = normalize_address_text_location(" 1 Main St ", "origin").unwrap();
    assert!(loc.same_as(&TicketLocation::AddressText { address: "1 Main St".to_string(), label: None }));
}

#[test]
fn finds_saved_locations_by_id_and_label() {
    let settings = settings_with_home();
    assert_eq!(find_saved_location_by_id(&settings, "loc-home").map(|l| l.label.clone()), Some("Home".to_string()));
    assert!(find_saved_location_by_id(&settings, "loc-none").is_none());
    assert_eq!(find_saved_location_by_label(&settings, " home ").map(|l| l.id.clone()), Some("loc-home".to_string()));
    assert!(find_saved_location_by_label(&settings, "office").is_none());
}

#[test]
fn resolves_references_and_objects() {
    let mut settings = settings_with_home();
    settings.saved_locations.push(SavedLocation {
        id: "loc-loop".to_string(),
        label: "Loop".to_string(),
        location: TicketLocation::SavedLocation { location_id: "loc-home".to_string(), label: None },
    });
    let err = resolve_saved_location_reference(&settings, "loc-loop", None, "event location").unwrap_err();
    assert_eq!(err, "saved location 'Loop' must resolve to a concrete location");
    let (text, _) = resolve_saved_location_reference(&settings, "loc-home", Some("Flat".to_string()), "x").unwrap();
    assert_eq!(text, "12 Rue de Rivoli, Paris");
    let blank = TicketLocation::AddressText { address: " ".to_string(), label: None };
    assert_eq!(
        resolve_location_object(blank, &settings, "event location").unwrap_err(),
        "event location structured location must render to a non-empty value"
    );
}

#[test]
fn reads_optional_location_arguments() {
    let settings = settings_with_home();
    assert!(parse_location_arg(&json(r#"{"location": null}"#), "location", "event location").unwrap().is_none());
    assert_eq!(
        parse_location_arg(&json(r#"{"location": "home"}"#), "location", "event location").unwrap_err(),
        "invalid event location value"
    );
    let resolved = resolve_event_location(
        &json(r#"{"location": {"location_type": "saved_location", "location_id": "loc-home"}}"#),
        &settings,
    )
    .unwrap()
    .unwrap();
    assert!(resolved.same_as(&TicketLocation::SavedLocation {
        location_id: "loc-home".to_string(),
        label: Some("Home".to_string()),
    }));
}
